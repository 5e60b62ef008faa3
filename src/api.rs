//! The per-block API: display mutations are buffered as commands and handed
//! over to the renderer in one request per flush.

use vstd::prelude::*;

verus! {

/// Urgency a block reports for its segment.
#[derive(Debug, Clone, Copy, PartialEq, Eq, Structural)]
pub enum State {
    Idle,
    Info,
    Good,
    Warning,
    Critical,
}

/// A mouse button of a click on a segment.
#[derive(Debug, Clone, Copy, PartialEq, Eq, Structural)]
pub enum MouseButton {
    Left,
    Middle,
    Right,
    WheelUp,
    WheelDown,
    Forward,
    Back,
    Unknown,
}

/// A click that the renderer routed to a block.
#[derive(Debug, Clone, Copy, PartialEq, Eq, Structural)]
pub struct ClickEvent {
    pub button: MouseButton,
}

/// What a block receives on its private channel.
#[derive(Debug, Clone, Copy, PartialEq, Eq, Structural)]
pub enum BlockEvent {
    Click(ClickEvent),
    UpdateRequest,
}

/// A value for a placeholder of a block's format; rendering is the
/// renderer's business.
#[derive(Debug, Clone, PartialEq)]
pub enum Value {
    Text(String),
    Icon(String),
    Number(i64),
}

/// A format specification, kept as its source text.
#[derive(Debug, Clone, PartialEq)]
pub struct Format {
    pub source: String,
}

/// Errors of the block API.
#[derive(Debug, Clone, PartialEq)]
pub enum ApiError {
    /// The theme has no icon of this name.
    IconNotFound(String),
    /// The renderer's end of the command channel is gone.
    RequestSendFailed,
    /// No connection came back for a connection request.
    ConnectionFailed,
}

/// The channel on which the renderer answers a connection request.
pub type ConnectionReply = tokio::sync::oneshot::Sender<Result<zbus::Connection, ApiError>>;

/// One display mutation, applied by the renderer in buffering order.
pub enum Command {
    Hide,
    Show,
    SetIcon(String),
    SetState(State),
    SetText(String),
    SetTexts(String, String),
    SetValues(std::collections::HashMap<String, Value>),
    SetFormat(Format),
    SetFullScreen(bool),
    Preserve,
    Restore,
    GetDbusConnection(ConnectionReply),
    GetSystemDbusConnection(ConnectionReply),
}

/// A command buffer: a few commands inline, more on the heap.
#[verifier::external_body]
pub struct CmdBuf {
    inner: smallvec::SmallVec<[Command; 4]>,
}

/// The commands a buffer holds, in order.
pub uninterp spec fn buffered(v: CmdBuf) -> Seq<Command>;

/// Whether `n` more commands can be buffered without the buffer's growth
/// overflowing (see `push_command`).
pub open spec fn has_room(v: CmdBuf, n: int) -> bool {
    buffered(v).len() + n < usize::MAX / 1024
}

/// Relies on `SmallVec::new`: a vector with no items.
#[verifier::external_body]
fn empty_buffer() -> (r: CmdBuf)
    ensures
        buffered(r) == Seq::<Command>::empty(),
{
    CmdBuf { inner: smallvec::SmallVec::new() }
}

/// Relies on `SmallVec::push`: the item goes after the others. Growing the
/// buffer to the next power of two panics only on a capacity overflow (that
/// power past `usize`, or its size in bytes past `isize::MAX`); a command
/// takes under 256 bytes, so below `usize::MAX / 1024` items neither happens.
#[verifier::external_body]
fn push_command(v: &mut CmdBuf, c: Command)
    requires
        buffered(*old(v)).len() < usize::MAX / 1024,
    ensures
        buffered(*final(v)) == buffered(*old(v)).push(c),
{
    v.inner.push(c)
}

/// Relies on `SmallVec::len`: the number of items.
#[verifier::external_body]
fn buffer_len(v: &CmdBuf) -> (r: usize)
    ensures
        r == buffered(*v).len(),
{
    v.inner.len()
}

/// Relies on `SmallVec::into_vec`: the same items, in order, in a `Vec`.
#[verifier::external_body]
fn buffer_into_vec(v: CmdBuf) -> (r: Vec<Command>)
    ensures
        r@ == buffered(v),
{
    v.inner.into_vec()
}

impl CmdBuf {
    /// A buffer with no commands.
    pub fn new() -> (r: CmdBuf)
        ensures
            buffered(r) == Seq::<Command>::empty(),
    {
        empty_buffer()
    }

    /// Number of commands held.
    pub fn len(&self) -> (r: usize)
        ensures
            r == buffered(*self).len(),
    {
        buffer_len(self)
    }

    /// Whether no command is held.
    pub fn is_empty(&self) -> (r: bool)
        ensures
            r == (buffered(*self).len() == 0),
    {
        buffer_len(self) == 0
    }

    /// The commands, in order.
    pub fn into_vec(self) -> (r: Vec<Command>)
        ensures
            r@ == buffered(self),
    {
        buffer_into_vec(self)
    }
}

/// The unit sent to the renderer: a block's commands of one flush.
pub struct Request {
    pub block_id: usize,
    pub cmds: CmdBuf,
}

impl Request {
    pub open spec fn commands(&self) -> Seq<Command> {
        buffered(self.cmds)
    }
}

/// Icon and theme lookup shared by all blocks: icon names with their
/// resolved text, the first entry of a name winning.
pub struct SharedConfig {
    pub icons: Vec<(String, String)>,
}

/// The resolved icon of `name` in `icons`: the value of its first entry.
pub open spec fn icon_lookup(icons: Seq<(String, String)>, name: Seq<char>) -> Option<String>
    decreases icons.len(),
{
    if icons.len() == 0 {
        None
    } else if icons[0].0@ == name {
        Some(icons[0].1)
    } else {
        icon_lookup(icons.drop_first(), name)
    }
}

impl SharedConfig {
    /// Resolves an icon name.
    pub fn get_icon(&self, name: &str) -> (r: Result<String, ApiError>)
        ensures
            match icon_lookup(self.icons@, name@) {
                Some(v) => r == Ok::<String, ApiError>(v),
                None => r matches Err(ApiError::IconNotFound(n)) && n@ == name@,
            },
    {
        let wanted: String = name.to_owned();
        let mut i: usize = 0;
        assert(self.icons@.subrange(0, self.icons@.len() as int) =~= self.icons@);
        while i < self.icons.len()
            invariant
                i <= self.icons@.len(),
                wanted@ == name@,
                icon_lookup(self.icons@, name@) == icon_lookup(self.icons@.subrange(i as int, self.icons@.len() as int), name@),
            decreases self.icons@.len() - i,
        {
            let ghost rest = self.icons@.subrange(i as int, self.icons@.len() as int);
            assert(rest.drop_first() =~= self.icons@.subrange(i + 1, self.icons@.len() as int));
            if self.icons[i].0 == wanted {
                return Ok(self.icons[i].1.clone());
            }
            i = i + 1;
        }
        assert(self.icons@.subrange(i as int, self.icons@.len() as int) =~= Seq::<(String, String)>::empty());
        Err(ApiError::IconNotFound(wanted))
    }
}

/// A block's handle on the framework: its identity, its private event
/// channel, the shared command channel and the commands not yet sent.
pub struct CommonApi {
    pub id: usize,
    pub shared_config: SharedConfig,
    pub event_receiver: tokio::sync::mpsc::Receiver<BlockEvent>,
    pub request_sender: tokio::sync::mpsc::Sender<Request>,
    pub cmd_buf: CmdBuf,
    /// Delay before a failed operation is retried, in milliseconds.
    pub error_interval: u64,
    /// Text shown in place of the caller's message while degraded.
    pub error_format: Option<String>,
}

impl CommonApi {
    /// The commands buffered and not yet sent, in order.
    pub open spec fn commands(&self) -> Seq<Command> {
        buffered(self.cmd_buf)
    }
}

/// `b` is `a` with only its command buffer changed.
pub open spec fn same_but_buffer(a: &CommonApi, b: &CommonApi) -> bool {
    &&& b.id == a.id
    &&& b.shared_config == a.shared_config
    &&& b.event_receiver == a.event_receiver
    &&& b.request_sender == a.request_sender
    &&& b.error_interval == a.error_interval
    &&& b.error_format == a.error_format
}

/// `b` is `a` with `c` appended to its command buffer.
pub open spec fn appended(a: &CommonApi, b: &CommonApi, c: Command) -> bool {
    same_but_buffer(a, b) && b.commands() == a.commands().push(c)
}

/// A command that clears the icon.
pub open spec fn is_icon_clear(c: Command) -> bool {
    match c {
        Command::SetIcon(s) => s@.len() == 0,
        _ => false,
    }
}

impl CommonApi {
    pub fn hide_block(&mut self)
        requires
            has_room(old(self).cmd_buf, 1),
        ensures
            appended(old(self), final(self), Command::Hide),
    {
        push_command(&mut self.cmd_buf, Command::Hide);
    }

    pub fn show(&mut self)
        requires
            has_room(old(self).cmd_buf, 1),
        ensures
            appended(old(self), final(self), Command::Show),
    {
        push_command(&mut self.cmd_buf, Command::Show);
    }

    /// Buffers an icon change: an empty name clears the icon without a
    /// lookup; another name is resolved first, and nothing is buffered when
    /// the theme does not know it.
    pub fn set_icon(&mut self, icon: &str) -> (r: Result<(), ApiError>)
        requires
            has_room(old(self).cmd_buf, 1),
        ensures
            icon@.len() == 0 ==> (r is Ok && final(self).commands().len() == old(self).commands().len() + 1
                && is_icon_clear(final(self).commands().last())
                && final(self).commands().drop_last() == old(self).commands()),
            icon@.len() != 0 ==> match icon_lookup(old(self).shared_config.icons@, icon@) {
                Some(v) => r is Ok && appended(old(self), final(self), Command::SetIcon(v)),
                None => r matches Err(ApiError::IconNotFound(n)) && n@ == icon@
                    && final(self).commands() == old(self).commands(),
            },
            same_but_buffer(old(self), final(self)),
    {
        let resolved = if icon.is_empty() {
            String::new()
        } else {
            match self.get_icon(icon) {
                Ok(v) => v,
                Err(e) => return Err(e),
            }
        };
        push_command(&mut self.cmd_buf, Command::SetIcon(resolved));
        Ok(())
    }

    pub fn set_icon_raw(&mut self, icon: String)
        requires
            has_room(old(self).cmd_buf, 1),
        ensures
            appended(old(self), final(self), Command::SetIcon(icon)),
    {
        push_command(&mut self.cmd_buf, Command::SetIcon(icon));
    }

    pub fn set_state(&mut self, state: State)
        requires
            has_room(old(self).cmd_buf, 1),
        ensures
            appended(old(self), final(self), Command::SetState(state)),
    {
        push_command(&mut self.cmd_buf, Command::SetState(state));
    }

    pub fn set_text(&mut self, text: String)
        requires
            has_room(old(self).cmd_buf, 1),
        ensures
            appended(old(self), final(self), Command::SetText(text)),
    {
        push_command(&mut self.cmd_buf, Command::SetText(text));
    }

    pub fn set_texts(&mut self, full: String, short: String)
        requires
            has_room(old(self).cmd_buf, 1),
        ensures
            appended(old(self), final(self), Command::SetTexts(full, short)),
    {
        push_command(&mut self.cmd_buf, Command::SetTexts(full, short));
    }

    pub fn set_values(&mut self, values: std::collections::HashMap<String, Value>)
        requires
            has_room(old(self).cmd_buf, 1),
        ensures
            appended(old(self), final(self), Command::SetValues(values)),
    {
        push_command(&mut self.cmd_buf, Command::SetValues(values));
    }

    pub fn set_format(&mut self, format: Format)
        requires
            has_room(old(self).cmd_buf, 1),
        ensures
            appended(old(self), final(self), Command::SetFormat(format)),
    {
        push_command(&mut self.cmd_buf, Command::SetFormat(format));
    }

    pub fn set_full_screen(&mut self, value: bool)
        requires
            has_room(old(self).cmd_buf, 1),
        ensures
            appended(old(self), final(self), Command::SetFullScreen(value)),
    {
        push_command(&mut self.cmd_buf, Command::SetFullScreen(value));
    }

    pub fn preserve(&mut self)
        requires
            has_room(old(self).cmd_buf, 1),
        ensures
            appended(old(self), final(self), Command::Preserve),
    {
        push_command(&mut self.cmd_buf, Command::Preserve);
    }

    pub fn restore(&mut self)
        requires
            has_room(old(self).cmd_buf, 1),
        ensures
            appended(old(self), final(self), Command::Restore),
    {
        push_command(&mut self.cmd_buf, Command::Restore);
    }

    /// Resolves an icon name through the shared configuration.
    pub fn get_icon(&self, icon: &str) -> (r: Result<String, ApiError>)
        ensures
            match icon_lookup(self.shared_config.icons@, icon@) {
                Some(v) => r == Ok::<String, ApiError>(v),
                None => r matches Err(ApiError::IconNotFound(n)) && n@ == icon@,
            },
    {
        self.shared_config.get_icon(icon)
    }

    /// Starts a flush: swaps the buffer for an empty one and returns the
    /// request, tagged with this block's id, that carries the old contents.
    pub fn take_request(&mut self) -> (r: Request)
        ensures
            r.block_id == old(self).id,
            r.commands() == old(self).commands(),
            final(self).commands() == Seq::<Command>::empty(),
            same_but_buffer(old(self), final(self)),
    {
        let mut cmds = empty_buffer();
        std::mem::swap(&mut cmds, &mut self.cmd_buf);
        Request { block_id: self.id, cmds }
    }

    /// Buffers a request for a session-bus connection and starts the flush
    /// that carries it at once.
    pub fn request_connection(&mut self, reply: ConnectionReply) -> (r: Request)
        requires
            has_room(old(self).cmd_buf, 1),
        ensures
            r.block_id == old(self).id,
            r.commands() == old(self).commands().push(Command::GetDbusConnection(reply)),
            final(self).commands() == Seq::<Command>::empty(),
            same_but_buffer(old(self), final(self)),
    {
        push_command(&mut self.cmd_buf, Command::GetDbusConnection(reply));
        self.take_request()
    }

    /// Buffers a request for a system-bus connection and starts the flush
    /// that carries it at once.
    pub fn request_system_connection(&mut self, reply: ConnectionReply) -> (r: Request)
        requires
            has_room(old(self).cmd_buf, 1),
        ensures
            r.block_id == old(self).id,
            r.commands() == old(self).commands().push(Command::GetSystemDbusConnection(reply)),
            final(self).commands() == Seq::<Command>::empty(),
            same_but_buffer(old(self), final(self)),
    {
        push_command(&mut self.cmd_buf, Command::GetSystemDbusConnection(reply));
        self.take_request()
    }
}

/// `apis` is a run of mutator calls: each state is the one before with the
/// matching command of `cmds` appended.
pub open spec fn call_run(apis: Seq<CommonApi>, cmds: Seq<Command>) -> bool {
    &&& apis.len() == cmds.len() + 1
    &&& forall|i: int| 0 <= i < cmds.len() ==> appended(&apis[i], &apis[i + 1], #[trigger] cmds[i])
}

proof fn lemma_run_prefix(apis: Seq<CommonApi>, cmds: Seq<Command>, i: int)
    requires
        call_run(apis, cmds),
        0 <= i <= cmds.len(),
    ensures
        apis[i].commands() == apis[0].commands() + cmds.take(i),
    decreases i,
{
    if i == 0 {
        assert(cmds.take(0) =~= Seq::<Command>::empty());
        assert(apis[0].commands() + cmds.take(0) =~= apis[0].commands());
    } else {
        lemma_run_prefix(apis, cmds, i - 1);
        assert(appended(&apis[i - 1], &apis[i], cmds[i - 1]));
        assert(cmds.take(i) =~= cmds.take(i - 1).push(cmds[i - 1]));
        assert(apis[i].commands() =~= apis[0].commands() + cmds.take(i));
    }
}

/// After a flush has emptied the buffer, N mutator calls followed by one
/// flush give one request whose list holds exactly those N commands, in call
/// order; with no call in between the list is empty.
pub proof fn lemma_flush_carries_calls(apis: Seq<CommonApi>, cmds: Seq<Command>, req: Request)
    requires
        call_run(apis, cmds),
        apis[0].commands() == Seq::<Command>::empty(),
        req.commands() == apis.last().commands(),
    ensures
        req.commands() == cmds,
        req.commands().len() == cmds.len(),
{
    lemma_run_prefix(apis, cmds, cmds.len() as int);
    assert(cmds.take(cmds.len() as int) =~= cmds);
    assert(apis[0].commands() + cmds =~= cmds);
}

/// A flush's request holds what was buffered when the flush began: the
/// commands buffered after it go to the fresh buffer, never to that request.
pub proof fn lemma_flush_excludes_later(before: CommonApi, req: Request, apis: Seq<CommonApi>, later: Seq<Command>)
    requires
        req.commands() == before.commands(),
        call_run(apis, later),
        apis[0].commands() == Seq::<Command>::empty(),
    ensures
        req.commands() == before.commands(),
        apis.last().commands() == later,
{
    lemma_run_prefix(apis, later, later.len() as int);
    assert(later.take(later.len() as int) =~= later);
    assert(apis[0].commands() + later =~= later);
}

/// The outcome of a connection request from what its reply channel gave:
/// `None` when the channel closed before an answer.
pub fn connection_outcome(reply: Option<Result<zbus::Connection, ApiError>>) -> (r: Result<zbus::Connection, ApiError>)
    ensures
        match reply {
            None => r == Err::<zbus::Connection, ApiError>(ApiError::ConnectionFailed),
            Some(x) => r == x,
        },
{
    match reply {
        None => Err(ApiError::ConnectionFailed),
        Some(x) => x,
    }
}

} // verus!
