//! Shared configuration: the fields every block accepts, taken out of a
//! block's raw configuration before the block reads the rest.

use vstd::prelude::*;
use crate::kinds::{BlockType, KindError, parse_block_type, parse_outcome_ok};

verus! {

/// A configuration value that holds no other value.
#[derive(Debug, Clone, PartialEq)]
pub enum Scalar {
    Str(String),
    Integer(i64),
    Boolean(bool),
    /// Any other value (a float, a date, a nested table or array).
    Other,
}

/// The shape of a configuration value, as far as the shared fields need it.
#[derive(Debug, Clone, PartialEq)]
pub enum ConfigValue {
    Scalar(Scalar),
    Table(Vec<(String, Scalar)>),
    Array(Vec<Scalar>),
}

/// Why the shared fields were refused.
#[derive(Debug, Clone, PartialEq)]
pub enum ConfigError {
    /// The field naming the block kind is missing.
    MissingBlock,
    /// The kind name was refused.
    Kind(KindError),
    /// The named field has the wrong shape.
    Field(String),
}

/// The shared fields of one block's configuration.
#[derive(Debug, Clone, PartialEq)]
pub struct CommonConfig {
    pub block: BlockType,
    /// Number of click rules; the rules themselves are read by the renderer.
    pub click_rules: usize,
    pub signal: Option<i32>,
    pub icons_format: Option<String>,
    pub theme_overrides: Option<Vec<(String, String)>>,
    /// Retry delay of the recovery loop, in seconds.
    pub error_interval: u64,
    pub error_format: Option<String>,
}

/// Retry delay when the configuration names none, in seconds.
pub const DEFAULT_ERROR_INTERVAL: u64 = 5;

/// The names of the shared fields.
pub open spec fn is_common_key(k: Seq<char>) -> bool {
    ||| k == "block"@
    ||| k == "click"@
    ||| k == "signal"@
    ||| k == "theme_overrides"@
    ||| k == "icons_format"@
    ||| k == "error_interval"@
    ||| k == "error_format"@
}

/// The entries of `s` whose key is not a shared field, in order.
pub open spec fn without_common<T>(s: Seq<(String, T)>) -> Seq<(String, T)>
    decreases s.len(),
{
    if s.len() == 0 {
        s
    } else if is_common_key(s.last().0@) {
        without_common(s.drop_last())
    } else {
        without_common(s.drop_last()).push(s.last())
    }
}

/// The entries of `s` whose key is a shared field, in order.
pub open spec fn only_common<T>(s: Seq<(String, T)>) -> Seq<(String, T)>
    decreases s.len(),
{
    if s.len() == 0 {
        s
    } else if is_common_key(s.last().0@) {
        only_common(s.drop_last()).push(s.last())
    } else {
        only_common(s.drop_last())
    }
}

/// The value of the first entry of `s` under `key`.
pub open spec fn field<T>(s: Seq<(String, T)>, key: Seq<char>) -> Option<T>
    decreases s.len(),
{
    if s.len() == 0 {
        None
    } else if s[0].0@ == key {
        Some(s[0].1)
    } else {
        field(s.drop_first(), key)
    }
}

/// Number of entries of `s` under `key`.
pub open spec fn key_count<T>(s: Seq<(String, T)>, key: Seq<char>) -> nat
    decreases s.len(),
{
    if s.len() == 0 {
        0
    } else {
        key_count(s.drop_last(), key) + if s.last().0@ == key { 1nat } else { 0nat }
    }
}

/// Taking the shared fields out of a configuration leaves no shared field
/// behind and keeps every other key exactly as often as it was there: none
/// is lost or duplicated. The shared fields taken out are exactly those that
/// were there.
pub proof fn lemma_extract_keeps_others<T>(doc: Seq<(String, T)>)
    ensures
        forall|i: int| 0 <= i < without_common(doc).len() ==> !is_common_key((#[trigger] without_common(doc)[i]).0@),
        forall|key: Seq<char>| !is_common_key(key) ==> #[trigger] key_count(without_common(doc), key) == key_count(doc, key),
        forall|key: Seq<char>| is_common_key(key) ==> #[trigger] key_count(only_common(doc), key) == key_count(doc, key),
    decreases doc.len(),
{
    if doc.len() > 0 {
        lemma_extract_keeps_others(doc.drop_last());
        let w = without_common(doc.drop_last());
        if !is_common_key(doc.last().0@) {
            assert(without_common(doc) == w.push(doc.last()));
            assert forall|i: int| 0 <= i < without_common(doc).len() implies !is_common_key((#[trigger] without_common(doc)[i]).0@) by {
                if i < w.len() {
                    assert(without_common(doc)[i] == w[i]);
                }
            }
            assert(w.push(doc.last()).drop_last() =~= w);
            assert(w.push(doc.last()).last() == doc.last());
            assert forall|key: Seq<char>| !is_common_key(key) implies #[trigger] key_count(without_common(doc), key) == key_count(doc, key) by {
                assert(key_count(doc, key) == key_count(doc.drop_last(), key) + if doc.last().0@ == key { 1nat } else { 0nat });
                assert(key_count(w.push(doc.last()), key) == key_count(w, key) + if doc.last().0@ == key { 1nat } else { 0nat });
            }
            assert forall|key: Seq<char>| is_common_key(key) implies #[trigger] key_count(only_common(doc), key) == key_count(doc, key) by {
                assert(doc.last().0@ != key);
                assert(only_common(doc) == only_common(doc.drop_last()));
                assert(key_count(doc, key) == key_count(doc.drop_last(), key));
            }
        } else {
            let c = only_common(doc.drop_last());
            assert(only_common(doc) == c.push(doc.last()));
            assert(c.push(doc.last()).drop_last() =~= c);
            assert(c.push(doc.last()).last() == doc.last());
            assert forall|key: Seq<char>| is_common_key(key) implies #[trigger] key_count(only_common(doc), key) == key_count(doc, key) by {
                assert(key_count(doc, key) == key_count(doc.drop_last(), key) + if doc.last().0@ == key { 1nat } else { 0nat });
                assert(key_count(c.push(doc.last()), key) == key_count(c, key) + if doc.last().0@ == key { 1nat } else { 0nat });
            }
            assert forall|key: Seq<char>| !is_common_key(key) implies #[trigger] key_count(without_common(doc), key) == key_count(doc, key) by {
                assert(doc.last().0@ != key);
                assert(without_common(doc) == without_common(doc.drop_last()));
                assert(key_count(doc, key) == key_count(doc.drop_last(), key));
            }
        }
    }
}

/// Whether `key` names a shared field, decided on the key's text.
fn is_common_field(key: &String) -> (r: bool)
    ensures
        r == is_common_key(key@),
{
    let names: Vec<&'static str> = vec!["block", "click", "signal", "theme_overrides", "icons_format", "error_interval", "error_format"];
    let mut i: usize = 0;
    while i < names.len()
        invariant
            i <= names@.len(),
            names@.len() == 7,
            names@[0]@ == "block"@,
            names@[1]@ == "click"@,
            names@[2]@ == "signal"@,
            names@[3]@ == "theme_overrides"@,
            names@[4]@ == "icons_format"@,
            names@[5]@ == "error_interval"@,
            names@[6]@ == "error_format"@,
            forall|j: int| 0 <= j < i ==> (#[trigger] names@[j])@ != key@,
        decreases names@.len() - i,
    {
        let candidate: String = names[i].to_owned();
        if candidate == *key {
            return true;
        }
        i = i + 1;
    }
    proof {
        assert(names@[0]@ != key@);
        assert(names@[1]@ != key@);
        assert(names@[2]@ != key@);
        assert(names@[3]@ != key@);
        assert(names@[4]@ != key@);
        assert(names@[5]@ != key@);
        assert(names@[6]@ != key@);
    }
    false
}

/// Moves the shared fields out of a raw configuration table, given as its
/// entries, and returns them; every other entry stays, in order.
pub fn extract_common<T>(doc: &mut Vec<(String, T)>) -> (r: Vec<(String, T)>)
    ensures
        final(doc)@ == without_common(old(doc)@),
        r@ == only_common(old(doc)@),
{
    let mut rest: Vec<(String, T)> = Vec::new();
    std::mem::swap(&mut rest, doc);
    let ghost all = rest@;
    let total: usize = rest.len();
    let mut common: Vec<(String, T)> = Vec::new();
    let mut k: usize = 0;
    while rest.len() > 0
        invariant
            k <= all.len(),
            rest@ == all.skip(k as int),
            k + rest@.len() == all.len(),
            all.len() == total,
            doc@ == without_common(all.take(k as int)),
            common@ == only_common(all.take(k as int)),
        decreases rest@.len(),
    {
        let entry = rest.remove(0);
        proof {
            assert(all.take(k + 1).drop_last() =~= all.take(k as int));
            assert(all.take(k + 1).last() == entry);
            assert(rest@ =~= all.skip(k + 1));
        }
        if is_common_field(&entry.0) {
            common.push(entry);
        } else {
            doc.push(entry);
        }
        k = k + 1;
    }
    assert(all.take(k as int) =~= all);
    common
}

/// An optional text field: absent, or a string.
pub open spec fn str_shape(v: Option<ConfigValue>) -> bool {
    match v {
        None => true,
        Some(ConfigValue::Scalar(Scalar::Str(_))) => true,
        _ => false,
    }
}

pub open spec fn str_value(v: Option<ConfigValue>) -> Option<String> {
    match v {
        Some(ConfigValue::Scalar(Scalar::Str(s))) => Some(s),
        _ => None,
    }
}

/// Click rules: absent, or an array.
pub open spec fn click_shape(v: Option<ConfigValue>) -> bool {
    match v {
        None => true,
        Some(ConfigValue::Array(_)) => true,
        _ => false,
    }
}

pub open spec fn click_count(v: Option<ConfigValue>) -> nat {
    match v {
        Some(ConfigValue::Array(a)) => a@.len(),
        _ => 0,
    }
}

/// A signal number: absent, or an integer that fits in `i32`.
pub open spec fn signal_shape(v: Option<ConfigValue>) -> bool {
    match v {
        None => true,
        Some(ConfigValue::Scalar(Scalar::Integer(n))) => i32::MIN <= n <= i32::MAX,
        _ => false,
    }
}

pub open spec fn signal_value(v: Option<ConfigValue>) -> Option<i32> {
    match v {
        Some(ConfigValue::Scalar(Scalar::Integer(n))) => Some(n as i32),
        _ => None,
    }
}

/// Theme overrides: absent, or a table whose values are all strings.
pub open spec fn theme_shape(v: Option<ConfigValue>) -> bool {
    match v {
        None => true,
        Some(ConfigValue::Table(t)) => forall|i: int| 0 <= i < t@.len() ==> (#[trigger] t@[i]).1 is Str,
        _ => false,
    }
}

/// `pairs` holds the keys and string values of `table`, in order.
pub open spec fn theme_matches(pairs: Seq<(String, String)>, table: Seq<(String, Scalar)>) -> bool {
    &&& pairs.len() == table.len()
    &&& forall|i: int| 0 <= i < table.len() ==> (#[trigger] table[i]).0 == pairs[i].0 && table[i].1 == Scalar::Str(pairs[i].1)
}

/// The retry delay: absent, or a non-negative integer.
pub open spec fn interval_shape(v: Option<ConfigValue>) -> bool {
    match v {
        None => true,
        Some(ConfigValue::Scalar(Scalar::Integer(n))) => n >= 0,
        _ => false,
    }
}

pub open spec fn interval_value(v: Option<ConfigValue>) -> u64 {
    match v {
        Some(ConfigValue::Scalar(Scalar::Integer(n))) => n as u64,
        _ => DEFAULT_ERROR_INTERVAL,
    }
}

/// The first misshaped field other than `block`, in the order the fields
/// are read.
pub open spec fn first_bad_field(f: Seq<(String, ConfigValue)>) -> Option<Seq<char>> {
    if !click_shape(field(f, "click"@)) {
        Some("click"@)
    } else if !signal_shape(field(f, "signal"@)) {
        Some("signal"@)
    } else if !str_shape(field(f, "icons_format"@)) {
        Some("icons_format"@)
    } else if !theme_shape(field(f, "theme_overrides"@)) {
        Some("theme_overrides"@)
    } else if !interval_shape(field(f, "error_interval"@)) {
        Some("error_interval"@)
    } else if !str_shape(field(f, "error_format"@)) {
        Some("error_format"@)
    } else {
        None
    }
}

/// What reading the shared fields yields: `block` must be present and a
/// string naming a compiled kind; then each other field must have its shape,
/// the first that does not being named in the error.
pub open spec fn common_outcome_ok(f: Seq<(String, ConfigValue)>, r: Result<CommonConfig, ConfigError>) -> bool {
    match field(f, "block"@) {
        None => r == Err::<CommonConfig, ConfigError>(ConfigError::MissingBlock),
        Some(ConfigValue::Scalar(Scalar::Str(name))) => {
            if !(exists|k: BlockType| crate::kinds::kind_name(k) == name@) {
                r matches Err(ConfigError::Kind(e)) && parse_outcome_ok(name@, Err(e))
            } else {
                match first_bad_field(f) {
                    Some(n) => r matches Err(ConfigError::Field(m)) && m@ == n,
                    None => match r {
                        Ok(c) => {
                            &&& crate::kinds::kind_name(c.block) == name@
                            &&& c.click_rules == click_count(field(f, "click"@))
                            &&& c.signal == signal_value(field(f, "signal"@))
                            &&& c.icons_format == str_value(field(f, "icons_format"@))
                            &&& match field(f, "theme_overrides"@) {
                                Some(ConfigValue::Table(t)) => c.theme_overrides matches Some(p) && theme_matches(p@, t@),
                                _ => c.theme_overrides is None,
                            }
                            &&& c.error_interval == interval_value(field(f, "error_interval"@))
                            &&& c.error_format == str_value(field(f, "error_format"@))
                        },
                        Err(_) => false,
                    },
                }
            }
        },
        Some(_) => r matches Err(ConfigError::Field(m)) && m@ == "block"@,
    }
}

/// Position of the first entry under `key`.
fn find_field(fields: &Vec<(String, ConfigValue)>, key: &str) -> (r: Option<usize>)
    ensures
        match field(fields@, key@) {
            None => r is None,
            Some(v) => r matches Some(i) && i < fields@.len() && fields@[i as int].1 == v,
        },
{
    let wanted: String = key.to_owned();
    let mut i: usize = 0;
    assert(fields@.subrange(0, fields@.len() as int) =~= fields@);
    while i < fields.len()
        invariant
            i <= fields@.len(),
            wanted@ == key@,
            field(fields@, key@) == field(fields@.subrange(i as int, fields@.len() as int), key@),
        decreases fields@.len() - i,
    {
        let ghost rest = fields@.subrange(i as int, fields@.len() as int);
        assert(rest.drop_first() =~= fields@.subrange(i + 1, fields@.len() as int));
        if fields[i].0 == wanted {
            return Some(i);
        }
        i = i + 1;
    }
    assert(fields@.subrange(i as int, fields@.len() as int) =~= Seq::<(String, ConfigValue)>::empty());
    None
}

fn shape_error<T>(key: &str) -> (r: Result<T, ConfigError>)
    ensures
        r matches Err(ConfigError::Field(m)) && m@ == key@,
{
    Err(ConfigError::Field(key.to_owned()))
}

fn read_str(fields: &Vec<(String, ConfigValue)>, key: &str) -> (r: Result<Option<String>, ConfigError>)
    ensures
        str_shape(field(fields@, key@)) ==> r == Ok::<Option<String>, ConfigError>(str_value(field(fields@, key@))),
        !str_shape(field(fields@, key@)) ==> (r matches Err(ConfigError::Field(m)) && m@ == key@),
{
    match find_field(fields, key) {
        None => Ok(None),
        Some(i) => match &fields[i].1 {
            ConfigValue::Scalar(Scalar::Str(s)) => Ok(Some(s.clone())),
            _ => shape_error(key),
        },
    }
}

fn read_click(fields: &Vec<(String, ConfigValue)>) -> (r: Result<usize, ConfigError>)
    ensures
        click_shape(field(fields@, "click"@)) ==> (r matches Ok(n) && n == click_count(field(fields@, "click"@))),
        !click_shape(field(fields@, "click"@)) ==> (r matches Err(ConfigError::Field(m)) && m@ == "click"@),
{
    match find_field(fields, "click") {
        None => Ok(0),
        Some(i) => match &fields[i].1 {
            ConfigValue::Array(a) => Ok(a.len()),
            _ => shape_error("click"),
        },
    }
}

fn read_signal(fields: &Vec<(String, ConfigValue)>) -> (r: Result<Option<i32>, ConfigError>)
    ensures
        signal_shape(field(fields@, "signal"@)) ==> r == Ok::<Option<i32>, ConfigError>(signal_value(field(fields@, "signal"@))),
        !signal_shape(field(fields@, "signal"@)) ==> (r matches Err(ConfigError::Field(m)) && m@ == "signal"@),
{
    match find_field(fields, "signal") {
        None => Ok(None),
        Some(i) => match &fields[i].1 {
            ConfigValue::Scalar(Scalar::Integer(n)) => {
                if i32::MIN as i64 <= *n && *n <= i32::MAX as i64 {
                    Ok(Some(*n as i32))
                } else {
                    shape_error("signal")
                }
            },
            _ => shape_error("signal"),
        },
    }
}

fn read_interval(fields: &Vec<(String, ConfigValue)>) -> (r: Result<u64, ConfigError>)
    ensures
        interval_shape(field(fields@, "error_interval"@)) ==> r == Ok::<u64, ConfigError>(interval_value(field(fields@, "error_interval"@))),
        !interval_shape(field(fields@, "error_interval"@)) ==> (r matches Err(ConfigError::Field(m)) && m@ == "error_interval"@),
{
    match find_field(fields, "error_interval") {
        None => Ok(DEFAULT_ERROR_INTERVAL),
        Some(i) => match &fields[i].1 {
            ConfigValue::Scalar(Scalar::Integer(n)) => {
                if *n >= 0 {
                    Ok(*n as u64)
                } else {
                    shape_error("error_interval")
                }
            },
            _ => shape_error("error_interval"),
        },
    }
}

fn read_theme(fields: &Vec<(String, ConfigValue)>) -> (r: Result<Option<Vec<(String, String)>>, ConfigError>)
    ensures
        theme_shape(field(fields@, "theme_overrides"@)) ==> match field(fields@, "theme_overrides"@) {
            Some(ConfigValue::Table(t)) => r matches Ok(Some(p)) && theme_matches(p@, t@),
            _ => r matches Ok(None),
        },
        !theme_shape(field(fields@, "theme_overrides"@)) ==> (r matches Err(ConfigError::Field(m)) && m@ == "theme_overrides"@),
{
    match find_field(fields, "theme_overrides") {
        None => Ok(None),
        Some(i) => match &fields[i].1 {
            ConfigValue::Table(t) => {
                let mut pairs: Vec<(String, String)> = Vec::new();
                let mut j: usize = 0;
                while j < t.len()
                    invariant
                        j <= t@.len(),
                        field(fields@, "theme_overrides"@) == Some(ConfigValue::Table(*t)),
                        pairs@.len() == j,
                        forall|m: int| 0 <= m < j ==> (#[trigger] t@[m]).0 == pairs@[m].0 && t@[m].1 == Scalar::Str(pairs@[m].1),
                    decreases t@.len() - j,
                {
                    match &t[j].1 {
                        Scalar::Str(v) => {
                            pairs.push((t[j].0.clone(), v.clone()));
                        },
                        _ => {
                            assert(!(t@[j as int].1 is Str));
                            return shape_error("theme_overrides");
                        },
                    }
                    j = j + 1;
                }
                Ok(Some(pairs))
            },
            _ => shape_error("theme_overrides"),
        },
    }
}

impl CommonConfig {
    /// Reads the shared fields, as `extract_common` took them out of a
    /// block's configuration.
    pub fn from_fields(fields: &Vec<(String, ConfigValue)>) -> (r: Result<CommonConfig, ConfigError>)
        ensures
            common_outcome_ok(fields@, r),
    {
        let block = match find_field(fields, "block") {
            None => {
                return Err(ConfigError::MissingBlock);
            },
            Some(i) => match &fields[i].1 {
                ConfigValue::Scalar(Scalar::Str(name)) => match parse_block_type(name.as_str()) {
                    Ok(k) => k,
                    Err(e) => {
                        return Err(ConfigError::Kind(e));
                    },
                },
                _ => {
                    return shape_error("block");
                },
            },
        };
        let click_rules = match read_click(fields) {
            Ok(n) => n,
            Err(e) => {
                return Err(e);
            },
        };
        let signal = match read_signal(fields) {
            Ok(v) => v,
            Err(e) => {
                return Err(e);
            },
        };
        let icons_format = match read_str(fields, "icons_format") {
            Ok(v) => v,
            Err(e) => {
                return Err(e);
            },
        };
        let theme_overrides = match read_theme(fields) {
            Ok(v) => v,
            Err(e) => {
                return Err(e);
            },
        };
        let error_interval = match read_interval(fields) {
            Ok(v) => v,
            Err(e) => {
                return Err(e);
            },
        };
        let error_format = match read_str(fields, "error_format") {
            Ok(v) => v,
            Err(e) => {
                return Err(e);
            },
        };
        Ok(CommonConfig { block, click_rules, signal, icons_format, theme_overrides, error_interval, error_format })
    }
}

} // verus!
