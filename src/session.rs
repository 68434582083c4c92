use vstd::prelude::*;

use crate::protocol::Resp;

verus! {

/// The ASCII upper case of a byte.
pub open spec fn upper(c: u8) -> u8 {
    if 97 <= c && c <= 122 {
        (c - 32) as u8
    } else {
        c
    }
}

/// Whether `e` spells the upper-case word `w`, in any case.
pub open spec fn spells(e: Seq<u8>, w: Seq<u8>) -> bool {
    e.len() == w.len() && forall|i: int| 0 <= i < e.len() ==> upper(#[trigger] e[i]) == w[i]
}

fn spells_exec(e: &Vec<u8>, w: &[u8]) -> (r: bool)
    ensures
        r == spells(e@, w@),
{
    if e.len() != w.len() {
        return false;
    }
    let mut i: usize = 0;
    while i < e.len()
        invariant
            i <= e.len(),
            e.len() == w.len(),
            forall|j: int| 0 <= j < i ==> upper(#[trigger] e@[j]) == w@[j],
        decreases e.len() - i,
    {
        let c = e[i];
        let u = if 97 <= c && c <= 122 {
            c - 32
        } else {
            c
        };
        if u != w[i] {
            return false;
        }
        i = i + 1;
    }
    true
}

/// The kinds of command that the proxy itself looks at.
#[derive(Debug, Clone, Copy, PartialEq, Eq, Structural)]
pub enum CmdType {
    Ping,
    Info,
    Auth,
    Quit,
    Echo,
    Select,
    UmCtl,
    Cluster,
    Config,
    Others,
    Invalid,
}

/// The data commands that need more than their first key to be routed.
#[derive(Debug, Clone, Copy, PartialEq, Eq, Structural)]
pub enum DataCmdType {
    Eval,
    EvalSha,
    Others,
}

pub open spec fn w_ping() -> Seq<u8> { seq![80u8, 73u8, 78u8, 71u8] }
pub open spec fn w_info() -> Seq<u8> { seq![73u8, 78u8, 70u8, 79u8] }
pub open spec fn w_auth() -> Seq<u8> { seq![65u8, 85u8, 84u8, 72u8] }
pub open spec fn w_quit() -> Seq<u8> { seq![81u8, 85u8, 73u8, 84u8] }
pub open spec fn w_echo() -> Seq<u8> { seq![69u8, 67u8, 72u8, 79u8] }
pub open spec fn w_select() -> Seq<u8> { seq![83u8, 69u8, 76u8, 69u8, 67u8, 84u8] }
pub open spec fn w_umctl() -> Seq<u8> { seq![85u8, 77u8, 67u8, 84u8, 76u8] }
pub open spec fn w_cluster() -> Seq<u8> { seq![67u8, 76u8, 85u8, 83u8, 84u8, 69u8, 82u8] }
pub open spec fn w_config() -> Seq<u8> { seq![67u8, 79u8, 78u8, 70u8, 73u8, 71u8] }
pub open spec fn w_eval() -> Seq<u8> { seq![69u8, 86u8, 65u8, 76u8] }
pub open spec fn w_evalsha() -> Seq<u8> { seq![69u8, 86u8, 65u8, 76u8, 83u8, 72u8, 65u8] }

/// The kind of a command with the given words: by its first word, in any case.
pub open spec fn cmd_type_of(words: Seq<Seq<u8>>) -> CmdType {
    if words.len() == 0 {
        CmdType::Invalid
    } else {
        let n = words[0];
        if spells(n, w_ping()) {
            CmdType::Ping
        } else if spells(n, w_info()) {
            CmdType::Info
        } else if spells(n, w_auth()) {
            CmdType::Auth
        } else if spells(n, w_quit()) {
            CmdType::Quit
        } else if spells(n, w_echo()) {
            CmdType::Echo
        } else if spells(n, w_select()) {
            CmdType::Select
        } else if spells(n, w_umctl()) {
            CmdType::UmCtl
        } else if spells(n, w_cluster()) {
            CmdType::Cluster
        } else if spells(n, w_config()) {
            CmdType::Config
        } else {
            CmdType::Others
        }
    }
}

/// The data kind of a command with the given words.
pub open spec fn data_cmd_type_of(words: Seq<Seq<u8>>) -> DataCmdType {
    if words.len() == 0 {
        DataCmdType::Others
    } else if spells(words[0], w_eval()) {
        DataCmdType::Eval
    } else if spells(words[0], w_evalsha()) {
        DataCmdType::EvalSha
    } else {
        DataCmdType::Others
    }
}

/// The views of a vector of byte strings.
pub open spec fn byte_views(v: Seq<Vec<u8>>) -> Seq<Seq<u8>> {
    v.map_values(|x: Vec<u8>| x@)
}

/// One request of a client: the words of a multi-bulk RESP array.
#[derive(Debug)]
pub struct Command {
    elements: Vec<Vec<u8>>,
}

impl View for Command {
    type V = Seq<Seq<u8>>;

    closed spec fn view(&self) -> Seq<Seq<u8>> {
        byte_views(self.elements@)
    }
}

impl Command {
    pub fn new(elements: Vec<Vec<u8>>) -> (r: Command)
        ensures
            r@ == byte_views(elements@),
    {
        Command { elements }
    }

    /// The number of words.
    pub fn len(&self) -> (r: usize)
        ensures
            r == self@.len(),
    {
        self.elements.len()
    }

    /// The key of the command: its second word, if it has one.
    pub fn get_key(&self) -> (r: Option<&Vec<u8>>)
        ensures
            self@.len() >= 2 ==> (r matches Some(k) && k@ == self@[1]),
            self@.len() < 2 ==> r is None,
    {
        if self.elements.len() >= 2 {
            Some(&self.elements[1])
        } else {
            None
        }
    }

    /// Replaces the word at `index`; false, with nothing changed, if there is none.
    pub fn change_element(&mut self, index: usize, data: Vec<u8>) -> (r: bool)
        ensures
            r == (index < old(self)@.len()),
            r ==> final(self)@ == old(self)@.update(index as int, data@),
            !r ==> final(self)@ == old(self)@,
    {
        if index < self.elements.len() {
            let ghost before = self.elements@;
            self.elements.set(index, data);
            assert(byte_views(self.elements@) =~= byte_views(before).update(index as int, data@));
            true
        } else {
            false
        }
    }

    pub fn get_type(&self) -> (r: CmdType)
        ensures
            r == cmd_type_of(self@),
    {
        if self.elements.len() == 0 {
            return CmdType::Invalid;
        }
        let n = &self.elements[0];
        assert(n@ == self@[0]);
        if spells_exec(n, &[80u8, 73u8, 78u8, 71u8]) {
            CmdType::Ping
        } else if spells_exec(n, &[73u8, 78u8, 70u8, 79u8]) {
            CmdType::Info
        } else if spells_exec(n, &[65u8, 85u8, 84u8, 72u8]) {
            CmdType::Auth
        } else if spells_exec(n, &[81u8, 85u8, 73u8, 84u8]) {
            CmdType::Quit
        } else if spells_exec(n, &[69u8, 67u8, 72u8, 79u8]) {
            CmdType::Echo
        } else if spells_exec(n, &[83u8, 69u8, 76u8, 69u8, 67u8, 84u8]) {
            CmdType::Select
        } else if spells_exec(n, &[85u8, 77u8, 67u8, 84u8, 76u8]) {
            CmdType::UmCtl
        } else if spells_exec(n, &[67u8, 76u8, 85u8, 83u8, 84u8, 69u8, 82u8]) {
            CmdType::Cluster
        } else if spells_exec(n, &[67u8, 79u8, 78u8, 70u8, 73u8, 71u8]) {
            CmdType::Config
        } else {
            CmdType::Others
        }
    }

    pub fn get_data_cmd_type(&self) -> (r: DataCmdType)
        ensures
            r == data_cmd_type_of(self@),
    {
        if self.elements.len() == 0 {
            return DataCmdType::Others;
        }
        let n = &self.elements[0];
        assert(n@ == self@[0]);
        if spells_exec(n, &[69u8, 86u8, 65u8, 76u8]) {
            DataCmdType::Eval
        } else if spells_exec(n, &[69u8, 86u8, 65u8, 76u8, 83u8, 72u8, 65u8]) {
            DataCmdType::EvalSha
        } else {
            DataCmdType::Others
        }
    }
}

/// Why a command got no reply from a back-end.
#[derive(Debug, Clone, Copy, PartialEq, Eq, Structural)]
pub enum CommandError {
    /// The command was dropped without a result.
    Dropped,
    Canceled,
    InvalidProtocol,
    Io,
}

/// The database that a new session starts in.
pub const DEFAULT_DB: &'static str = "admin";

/// The handle by which a command's result finds its place among the replies of
/// its batch: the position of its request.
#[derive(Debug)]
pub struct CmdReplySender {
    pub slot: usize,
}

/// The stages of a request that its slow-request log records.
#[derive(Debug, Clone, Copy, PartialEq, Eq, Structural)]
pub enum TaskEvent {
    Created,
    SentToBackend,
    ReceivedFromBackend,
    WaitDone,
}

/// The slow-request log of one request: its session and the stages it went
/// through, in order. The driver that records a stage may also note the time.
#[derive(Debug)]
pub struct Slowlog {
    pub session_id: usize,
    pub events: Vec<TaskEvent>,
}

impl Slowlog {
    pub fn new(session_id: usize) -> (r: Slowlog)
        ensures
            r.session_id == session_id,
            r.events@.len() == 0,
    {
        Slowlog { session_id, events: Vec::new() }
    }

    pub fn get_session_id(&self) -> (r: usize)
        ensures
            r == self.session_id,
    {
        self.session_id
    }

    pub fn log_event(&mut self, event: TaskEvent)
        ensures
            final(self).session_id == old(self).session_id,
            final(self).events@ == old(self).events@.push(event),
    {
        self.events.push(event);
    }
}

/// A command's result on its way back to its session, with the request it
/// answers and that request's slow-request log.
#[derive(Debug)]
pub struct TaskReply {
    pub slot: usize,
    /// The database that the request switched its session to, if it did.
    pub db_change: Option<String>,
    pub request: Command,
    pub result: Result<Resp, CommandError>,
    pub slowlog: Slowlog,
}

/// One request in flight: its database, its command, where its reply goes and
/// its slow-request log, which names the session it came from.
#[derive(Debug)]
pub struct CmdCtx {
    pub db: String,
    pub cmd: Command,
    pub reply_sender: CmdReplySender,
    pub slowlog: Slowlog,
    /// Whether the request switched the session's database.
    pub db_changed: bool,
}

impl CmdCtx {
    pub fn new(db: String, cmd: Command, reply_sender: CmdReplySender, session_id: usize) -> (r: CmdCtx)
        ensures
            r.db == db,
            r.cmd == cmd,
            r.reply_sender == reply_sender,
            r.slowlog.session_id == session_id,
            r.slowlog.events@.len() == 0,
            !r.db_changed,
    {
        CmdCtx { db, cmd, reply_sender, slowlog: Slowlog::new(session_id), db_changed: false }
    }

    /// Records a stage of the request in its slow-request log.
    pub fn log_event(&mut self, event: TaskEvent)
        ensures
            final(self).slowlog.session_id == old(self).slowlog.session_id,
            final(self).slowlog.events@ == old(self).slowlog.events@.push(event),
            final(self).db == old(self).db,
            final(self).db_changed == old(self).db_changed,
            final(self).cmd == old(self).cmd,
            final(self).reply_sender == old(self).reply_sender,
    {
        self.slowlog.log_event(event);
    }

    pub fn get_cmd(&self) -> (r: &Command)
        ensures
            r == &self.cmd,
    {
        &self.cmd
    }

    pub fn get_db(&self) -> (r: String)
        ensures
            r@ == self.db@,
    {
        self.db.clone()
    }

    pub fn get_session_id(&self) -> (r: usize)
        ensures
            r == self.slowlog.session_id,
    {
        self.slowlog.get_session_id()
    }

    pub fn change_cmd_element(&mut self, index: usize, data: Vec<u8>) -> (r: bool)
        ensures
            r == (index < old(self).cmd@.len()),
            r ==> final(self).cmd@ == old(self).cmd@.update(index as int, data@),
            !r ==> final(self).cmd@ == old(self).cmd@,
            final(self).db == old(self).db,
            final(self).db_changed == old(self).db_changed,
            final(self).reply_sender == old(self).reply_sender,
            final(self).slowlog == old(self).slowlog,
    {
        self.cmd.change_element(index, data)
    }

    pub fn get_cmd_type(&self) -> (r: CmdType)
        ensures
            r == cmd_type_of(self.cmd@),
    {
        self.cmd.get_type()
    }

    pub fn get_data_cmd_type(&self) -> (r: DataCmdType)
        ensures
            r == data_cmd_type_of(self.cmd@),
    {
        self.cmd.get_data_cmd_type()
    }

    pub fn get_key(&self) -> (r: Option<&Vec<u8>>)
        ensures
            self.cmd@.len() >= 2 ==> (r matches Some(k) && k@ == self.cmd@[1]),
            self.cmd@.len() < 2 ==> r is None,
    {
        self.cmd.get_key()
    }

    pub fn get_db_name(&self) -> (r: String)
        ensures
            r@ == self.db@,
    {
        self.db.clone()
    }

    pub fn set_db_name(&mut self, db: String)
        ensures
            final(self).db == db,
            final(self).db_changed,
            final(self).cmd == old(self).cmd,
            final(self).reply_sender == old(self).reply_sender,
            final(self).slowlog == old(self).slowlog,
    {
        self.db = db;
        self.db_changed = true;
    }

    /// Ends the request with a result, addressed to its place in the batch;
    /// the request's log records that its wait is done.
    pub fn set_result(self, result: Result<Resp, CommandError>) -> (r: TaskReply)
        ensures
            r.slot == self.reply_sender.slot,
            r.request == self.cmd,
            r.result == result,
            r.slowlog.session_id == self.slowlog.session_id,
            r.slowlog.events@ == self.slowlog.events@.push(TaskEvent::WaitDone),
            self.db_changed ==> r.db_change == Some(self.db),
            !self.db_changed ==> r.db_change is None,
    {
        let CmdCtx { db, cmd, reply_sender, mut slowlog, db_changed } = self;
        slowlog.log_event(TaskEvent::WaitDone);
        let db_change = if db_changed {
            Some(db)
        } else {
            None
        };
        TaskReply { slot: reply_sender.slot, db_change, request: cmd, result, slowlog }
    }
}

/// Makes new requests in the context of another: same database, same session.
pub struct CmdCtxFactory;

impl Default for CmdCtxFactory {
    fn default() -> (r: Self)
        ensures
            r == (CmdCtxFactory {}),
    {
        CmdCtxFactory
    }
}

/// The words of a request packet: an array of bulk strings, none of them nil.
pub open spec fn bulk_words(items: Seq<Resp>) -> Option<Seq<Seq<u8>>>
    decreases items.len(),
{
    if items.len() == 0 {
        Some(Seq::<Seq<u8>>::empty())
    } else {
        match (bulk_words(items.drop_last()), items.last()) {
            (Some(p), Resp::Bulk(Some(b))) => Some(p.push(b@)),
            _ => None,
        }
    }
}

/// The command that a RESP value describes, if it is a request packet.
pub open spec fn command_words(resp: Resp) -> Option<Seq<Seq<u8>>> {
    match resp {
        Resp::Arr(Some(items)) => bulk_words(items@),
        _ => None,
    }
}

proof fn lemma_bulk_words_failure_persists(items: Seq<Resp>, k: int)
    requires
        0 <= k <= items.len(),
        bulk_words(items.take(k)) is None,
    ensures
        bulk_words(items) is None,
    decreases items.len() - k,
{
    if k < items.len() {
        assert(items.take(k + 1).drop_last() == items.take(k));
        lemma_bulk_words_failure_persists(items, k + 1);
    } else {
        assert(items.take(k) == items);
    }
}

impl Command {
    /// The command of a request packet; `None` for any other RESP value.
    pub fn from_resp(resp: Resp) -> (r: Option<Command>)
        ensures
            match command_words(resp) {
                Some(w) => r matches Some(c) && c@ == w,
                None => r is None,
            },
    {
        let ghost cw = command_words(resp);
        match resp {
            Resp::Arr(Some(items)) => {
                let ghost all = items@;
                assert(cw == bulk_words(all));
                let mut words: Vec<Vec<u8>> = Vec::new();
                let mut i: usize = 0;
                while i < items.len()
                    invariant
                        i <= items.len(),
                        items@ == all,
                        cw == bulk_words(all),
                        cw == command_words(resp),
                        bulk_words(all.take(i as int)) == Some(byte_views(words@)),
                    decreases items.len() - i,
                {
                    assert(all.take(i + 1).drop_last() == all.take(i as int));
                    assert(all.take(i + 1).last() == all[i as int]);
                    match &items[i] {
                        Resp::Bulk(Some(b)) => {
                            let ghost before = words@;
                            let w = copy_bytes(b);
                            words.push(w);
                            assert(byte_views(words@) =~= byte_views(before).push(b@));
                        },
                        _ => {
                            assert(!(all[i as int] is Bulk && all[i as int]->Bulk_0 is Some));
                            assert(bulk_words(all.take(i + 1)) is None);
                            proof { lemma_bulk_words_failure_persists(all, i + 1); }
                            return None;
                        },
                    }
                    i = i + 1;
                }
                assert(all.take(all.len() as int) == all);
                Some(Command::new(words))
            },
            _ => None,
        }
    }
}

fn copy_bytes(v: &Vec<u8>) -> (r: Vec<u8>)
    ensures
        r@ == v@,
{
    let mut r: Vec<u8> = Vec::new();
    let mut i: usize = 0;
    while i < v.len()
        invariant
            i <= v.len(),
            r@ == v@.take(i as int),
        decreases v.len() - i,
    {
        r.push(v[i]);
        i = i + 1;
        assert(r@ == v@.take(i as int));
    }
    assert(v@.take(v@.len() as int) == v@);
    r
}

impl CmdCtxFactory {
    /// A request made on behalf of another, from a RESP packet: same database,
    /// same session. `None` if the packet is not a request.
    pub fn create_with(&self, another_task: &CmdCtx, resp: Resp, reply_sender: CmdReplySender) -> (r: Option<CmdCtx>)
        ensures
            match command_words(resp) {
                Some(w) => r matches Some(c) && c.cmd@ == w && c.db@ == another_task.db@
                    && c.slowlog.session_id == another_task.slowlog.session_id
                    && c.slowlog.events@.len() == 0 && c.reply_sender == reply_sender
                    && !c.db_changed,
                None => r is None,
            },
    {
        match Command::from_resp(resp) {
            Some(cmd) => Some(CmdCtx::new(another_task.get_db(), cmd, reply_sender, another_task.get_session_id())),
            None => None,
        }
    }
}

/// Where a session hands its requests.
pub trait CmdCtxHandler {
    fn handle_cmd_ctx(&self, cmd_ctx: CmdCtx);
}

/// What a session needs of the proxy: taking a command with the handle of its
/// reply.
pub trait CmdHandler {
    fn handle_cmd(&self, cmd: Command, reply_sender: CmdReplySender);
}

/// One client connection: its id, its current database and its router.
pub struct Session<H: CmdCtxHandler> {
    pub session_id: usize,
    pub db: String,
    pub cmd_ctx_handler: H,
}

impl<H: CmdCtxHandler> Session<H> {
    pub fn new(session_id: usize, cmd_ctx_handler: H) -> (r: Self)
        ensures
            r.session_id == session_id,
            r.db@ == DEFAULT_DB@,
            r.cmd_ctx_handler == cmd_ctx_handler,
    {
        Session { session_id, db: DEFAULT_DB.to_owned(), cmd_ctx_handler }
    }

    /// The request that this session makes of a command, its log recording
    /// that it was created.
    pub fn make_cmd_ctx(&self, cmd: Command, reply_sender: CmdReplySender) -> (r: CmdCtx)
        ensures
            r.db@ == self.db@,
            r.slowlog.session_id == self.session_id,
            r.slowlog.events@ == seq![TaskEvent::Created],
            !r.db_changed,
            r.cmd == cmd,
            r.reply_sender == reply_sender,
    {
        let mut ctx = CmdCtx::new(self.db.clone(), cmd, reply_sender, self.session_id);
        ctx.log_event(TaskEvent::Created);
        ctx
    }

    /// Switches the session to another database, as `SELECT` does: requests
    /// made from then on carry the new name.
    pub fn set_db_name(&mut self, db: String)
        ensures
            final(self).db == db,
            final(self).session_id == old(self).session_id,
            final(self).cmd_ctx_handler == old(self).cmd_ctx_handler,
    {
        self.db = db;
    }

    /// Takes on the database that a finished request switched to, so that a
    /// `SELECT` handled by the router holds for the session's later requests.
    pub fn apply_reply_db(&mut self, reply: &TaskReply)
        ensures
            reply.db_change matches Some(d) ==> final(self).db@ == d@,
            reply.db_change is None ==> final(self).db == old(self).db,
            final(self).session_id == old(self).session_id,
            final(self).cmd_ctx_handler == old(self).cmd_ctx_handler,
    {
        match &reply.db_change {
            Some(d) => {
                self.db = d.clone();
            },
            None => {},
        }
    }
}

impl<H: CmdCtxHandler> CmdHandler for Session<H> {
    fn handle_cmd(&self, cmd: Command, reply_sender: CmdReplySender) {
        let cmd_ctx = self.make_cmd_ctx(cmd, reply_sender);
        self.cmd_ctx_handler.handle_cmd_ctx(cmd_ctx);
    }
}

/// Why a session ended.
#[derive(Debug, Clone, Copy, PartialEq, Eq, Structural)]
pub enum SessionError {
    Io,
    CmdErr(CommandError),
    InvalidProtocol,
    Canceled,
    InvalidState,
}

/// The text of the error reply that a client gets for a failed command.
pub open spec fn error_text(e: CommandError) -> Seq<u8> {
    match e {
        CommandError::Dropped => seq![69u8, 82u8, 82u8, 32u8, 68u8, 114u8, 111u8, 112u8, 112u8, 101u8, 100u8],
        CommandError::Canceled => seq![69u8, 82u8, 82u8, 32u8, 67u8, 97u8, 110u8, 99u8, 101u8, 108u8, 101u8, 100u8],
        CommandError::InvalidProtocol => seq![69u8, 82u8, 82u8, 32u8, 73u8, 110u8, 118u8, 97u8, 108u8, 105u8, 100u8, 80u8, 114u8, 111u8, 116u8, 111u8, 99u8, 111u8, 108u8],
        CommandError::Io => seq![69u8, 82u8, 82u8, 32u8, 73u8, 111u8],
    }
}

/// The error reply for a failed command: "ERR " and the error's name.
pub fn error_reply(e: CommandError) -> (r: Resp)
    ensures
        r matches Resp::Error(t) && t@ == error_text(e),
{
    let t: Vec<u8> = match e {
        CommandError::Dropped => vec![69u8, 82u8, 82u8, 32u8, 68u8, 114u8, 111u8, 112u8, 112u8, 101u8, 100u8],
        CommandError::Canceled => vec![69u8, 82u8, 82u8, 32u8, 67u8, 97u8, 110u8, 99u8, 101u8, 108u8, 101u8, 100u8],
        CommandError::InvalidProtocol => vec![69u8, 82u8, 82u8, 32u8, 73u8, 110u8, 118u8, 97u8, 108u8, 105u8, 100u8, 80u8, 114u8, 111u8, 116u8, 111u8, 99u8, 111u8, 108u8],
        CommandError::Io => vec![69u8, 82u8, 82u8, 32u8, 73u8, 111u8],
    };
    assert(t@ == error_text(e));
    Resp::Error(t)
}

/// What the client is sent for a request: its packet, or an error reply when
/// it failed or got no result at all.
pub open spec fn reply_for(slot: Option<Result<Resp, CommandError>>, sent: Resp) -> bool {
    match slot {
        Some(Ok(p)) => sent == p,
        Some(Err(e)) => sent matches Resp::Error(t) && t@ == error_text(e),
        None => sent matches Resp::Error(t) && t@ == error_text(CommandError::Dropped),
    }
}

/// The replies of one batch of requests, kept in the order of the requests.
pub struct ReplyBatch {
    pub slots: Vec<Option<Result<Resp, CommandError>>>,
}

impl ReplyBatch {
    pub fn new() -> (r: Self)
        ensures
            r.slots@.len() == 0,
    {
        ReplyBatch { slots: Vec::new() }
    }

    /// Makes room for the reply of the next request.
    pub fn new_reply_sender(&mut self) -> (r: CmdReplySender)
        ensures
            r.slot == old(self).slots@.len(),
            final(self).slots@ == old(self).slots@.push(None),
    {
        let slot = self.slots.len();
        self.slots.push(None);
        CmdReplySender { slot }
    }

    /// Records a result. A result for a place that does not exist or that has
    /// one already is ignored: each request gets one reply.
    pub fn set_reply(&mut self, reply: TaskReply) -> (r: bool)
        ensures
            r == (reply.slot < old(self).slots@.len() && old(self).slots@[reply.slot as int] is None),
            r ==> final(self).slots@ == old(self).slots@.update(reply.slot as int, Some(reply.result)),
            !r ==> final(self).slots@ == old(self).slots@,
    {
        if reply.slot < self.slots.len() {
            let free = match &self.slots[reply.slot] {
                Some(_) => false,
                None => true,
            };
            if free {
                self.slots.set(reply.slot, Some(reply.result));
                return true;
            }
        }
        false
    }

    /// Takes the replies of the batch, one for each request, in the order of
    /// the requests, and leaves the batch empty for the next one.
    pub fn take_replies(&mut self) -> (r: Vec<Resp>)
        ensures
            final(self).slots@.len() == 0,
            r@.len() == old(self).slots@.len(),
            forall|i: int| 0 <= i < r@.len() ==> reply_for(old(self).slots@[i], #[trigger] r@[i]),
    {
        let mut slots: Vec<Option<Result<Resp, CommandError>>> = Vec::new();
        core::mem::swap(&mut slots, &mut self.slots);
        let ghost all = slots@;
        let mut out: Vec<Resp> = Vec::new();
        let mut rest: Vec<Option<Result<Resp, CommandError>>> = Vec::new();
        // Reverse once, so that popping hands the slots out in request order.
        while slots.len() > 0
            invariant
                rest@.len() + slots@.len() == all.len(),
                slots@ == all.take(slots@.len() as int),
                forall|j: int| 0 <= j < rest@.len() ==> rest@[j] == all[all.len() - 1 - j],
            decreases slots.len(),
        {
            let x = slots.pop().unwrap();
            rest.push(x);
        }
        while rest.len() > 0
            invariant
                out@.len() + rest@.len() == all.len(),
                forall|j: int| 0 <= j < rest@.len() ==> rest@[j] == all[all.len() - 1 - j],
                forall|i: int| 0 <= i < out@.len() ==> reply_for(all[i], #[trigger] out@[i]),
            decreases rest.len(),
        {
            let x = rest.pop().unwrap();
            let ghost k = out@.len() as int;
            assert(x == all[k]);
            let p = match x {
                Some(Ok(p)) => p,
                Some(Err(e)) => error_reply(e),
                None => error_reply(CommandError::Dropped),
            };
            out.push(p);
        }
        out
    }
}

/// Whether the reader releases the pending packets as a batch: when `batch_buf`
/// are pending, when the first pending one has waited `batch_min_time`, or when
/// the batch has been open for `batch_max_time`.
pub open spec fn batch_due(
    pending: nat,
    batch_buf: nat,
    since_first: nat,
    since_start: nat,
    batch_min_time: nat,
    batch_max_time: nat,
) -> bool {
    pending > 0 && (pending >= batch_buf || since_first >= batch_min_time || since_start
        >= batch_max_time)
}

pub fn batch_ready(
    pending: usize,
    batch_buf: usize,
    since_first: u64,
    since_start: u64,
    batch_min_time: u64,
    batch_max_time: u64,
) -> (r: bool)
    requires
        batch_buf > 0,
    ensures
        r == batch_due(
            pending as nat,
            batch_buf as nat,
            since_first as nat,
            since_start as nat,
            batch_min_time as nat,
            batch_max_time as nat,
        ),
{
    pending > 0 && (pending >= batch_buf || since_first >= batch_min_time || since_start
        >= batch_max_time)
}

/// With a batch size of one, each packet is released as soon as it is read:
/// the pipeline runs unbatched.
pub proof fn lemma_unit_batch_unbatched(since_first: nat, since_start: nat, min_t: nat, max_t: nat)
    ensures
        batch_due(1, 1, since_first, since_start, min_t, max_t),
{
}

} // verus!
