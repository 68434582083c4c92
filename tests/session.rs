use undermoon::protocol::{retry_handle_func, Resp};
use undermoon::session::{
    batch_ready, error_reply, CmdCtx, CmdCtxFactory, CmdCtxHandler, CmdType, Command,
    CommandError, DataCmdType, ReplyBatch, Session, TaskEvent,
};

fn cmd(words: &[&str]) -> Command {
    Command::new(words.iter().map(|w| w.as_bytes().to_vec()).collect())
}

#[test]
fn replies_keep_request_order() {
    let mut batch = ReplyBatch::new();
    let a = batch.new_reply_sender();
    let b = batch.new_reply_sender();
    let c = batch.new_reply_sender();
    let ctx_a = CmdCtx::new("db".to_string(), cmd(&["GET", "a"]), a, 1);
    let ctx_b = CmdCtx::new("db".to_string(), cmd(&["GET", "b"]), b, 1);
    let ctx_c = CmdCtx::new("db".to_string(), cmd(&["GET", "c"]), c, 1);
    assert!(batch.set_reply(ctx_c.set_result(Ok(Resp::Bulk(Some(b"C".to_vec()))))));
    assert!(batch.set_reply(ctx_a.set_result(Ok(Resp::Bulk(Some(b"A".to_vec()))))));
    assert!(batch.set_reply(ctx_b.set_result(Ok(Resp::Bulk(Some(b"B".to_vec()))))));
    let replies = batch.take_replies();
    assert_eq!(replies.len(), 3);
    let got: Vec<Vec<u8>> = replies
        .into_iter()
        .map(|r| match r {
            Resp::Bulk(Some(v)) => v,
            _ => panic!("unexpected reply"),
        })
        .collect();
    assert_eq!(got, vec![b"A".to_vec(), b"B".to_vec(), b"C".to_vec()]);
    assert!(batch.take_replies().is_empty());
}

#[test]
fn dropped_command_gives_error_reply() {
    let mut batch = ReplyBatch::new();
    let a = batch.new_reply_sender();
    let b = batch.new_reply_sender();
    let ctx_a = CmdCtx::new("mydb".to_string(), cmd(&["PING"]), a, 7799);
    let ctx_b = CmdCtx::new("mydb".to_string(), cmd(&["PING"]), b, 7799);
    drop(ctx_a);
    assert!(batch.set_reply(ctx_b.set_result(Err(CommandError::Canceled))));
    let replies = batch.take_replies();
    match &replies[0] {
        Resp::Error(t) => assert_eq!(t, b"ERR Dropped"),
        _ => panic!("expected an error"),
    }
    match &replies[1] {
        Resp::Error(t) => assert_eq!(t, b"ERR Canceled"),
        _ => panic!("expected an error"),
    }
}

#[test]
fn second_result_for_a_slot_is_ignored() {
    let mut batch = ReplyBatch::new();
    let a = batch.new_reply_sender();
    let slot = a.slot;
    let ctx = CmdCtx::new("db".to_string(), cmd(&["PING"]), a, 1);
    assert!(batch.set_reply(ctx.set_result(Ok(Resp::Simple(b"PONG".to_vec())))));
    let again = CmdCtx::new(
        "db".to_string(),
        cmd(&["PING"]),
        undermoon::session::CmdReplySender { slot },
        1,
    );
    assert!(!batch.set_reply(again.set_result(Err(CommandError::Io))));
    let out = CmdCtx::new(
        "db".to_string(),
        cmd(&["PING"]),
        undermoon::session::CmdReplySender { slot: 5 },
        1,
    );
    assert!(!batch.set_reply(out.set_result(Err(CommandError::Io))));
    match &batch.take_replies()[0] {
        Resp::Simple(t) => assert_eq!(t, b"PONG"),
        _ => panic!("expected the first reply"),
    }
}

#[test]
fn error_reply_text() {
    match error_reply(CommandError::InvalidProtocol) {
        Resp::Error(t) => assert_eq!(t, b"ERR InvalidProtocol"),
        _ => panic!("expected an error"),
    }
    match error_reply(CommandError::Io) {
        Resp::Error(t) => assert_eq!(t, b"ERR Io"),
        _ => panic!("expected an error"),
    }
}

#[test]
fn command_types() {
    assert_eq!(cmd(&["ping"]).get_type(), CmdType::Ping);
    assert_eq!(cmd(&["Select", "1"]).get_type(), CmdType::Select);
    assert_eq!(cmd(&["umctl", "TMPSWITCH"]).get_type(), CmdType::UmCtl);
    assert_eq!(cmd(&["GET", "a"]).get_type(), CmdType::Others);
    assert_eq!(cmd(&[]).get_type(), CmdType::Invalid);
    assert_eq!(cmd(&["evalsha", "x"]).get_data_cmd_type(), DataCmdType::EvalSha);
    assert_eq!(cmd(&["EVAL", "x"]).get_data_cmd_type(), DataCmdType::Eval);
    assert_eq!(cmd(&["GET", "a"]).get_data_cmd_type(), DataCmdType::Others);
}

#[test]
fn cmd_ctx_accessors() {
    let mut batch = ReplyBatch::new();
    let s = batch.new_reply_sender();
    let mut ctx = CmdCtx::new("mydb".to_string(), cmd(&["SET", "k", "v"]), s, 7799);
    assert_eq!(ctx.get_db(), "mydb");
    assert_eq!(ctx.get_session_id(), 7799);
    assert_eq!(ctx.get_cmd_type(), CmdType::Others);
    assert_eq!(ctx.get_key().unwrap(), &b"k".to_vec());
    assert!(ctx.change_cmd_element(1, b"k2".to_vec()));
    assert!(!ctx.change_cmd_element(3, b"x".to_vec()));
    assert_eq!(ctx.get_key().unwrap(), &b"k2".to_vec());
    assert_eq!(ctx.get_cmd().len(), 3);
    ctx.set_db_name("other".to_string());
    assert_eq!(ctx.get_db_name(), "other");

    let factory = CmdCtxFactory::default();
    let s2 = batch.new_reply_sender();
    let packet = Resp::Arr(Some(vec![
        Resp::Bulk(Some(b"GET".to_vec())),
        Resp::Bulk(Some(b"key".to_vec())),
    ]));
    let made = factory.create_with(&ctx, packet, s2).unwrap();
    assert_eq!(made.get_db(), "other");
    assert_eq!(made.get_session_id(), 7799);
    assert_eq!(made.get_cmd_type(), CmdType::Others);
    assert_eq!(made.get_key().unwrap(), &b"key".to_vec());
    let s3 = batch.new_reply_sender();
    let not_a_request = Resp::Arr(Some(vec![Resp::Bulk(Some(b"GET".to_vec())), Resp::Integer(1)]));
    assert!(factory.create_with(&ctx, not_a_request, s3).is_none());
    let s4 = batch.new_reply_sender();
    assert!(factory.create_with(&ctx, Resp::Simple(b"OK".to_vec()), s4).is_none());
    let empty = Command::from_resp(Resp::Arr(Some(vec![]))).unwrap();
    assert_eq!(empty.len(), 0);
    assert!(Command::from_resp(Resp::Arr(None)).is_none());
}

struct Collect;

impl CmdCtxHandler for Collect {
    fn handle_cmd_ctx(&self, _cmd_ctx: CmdCtx) {}
}

#[test]
fn session_defaults() {
    let session = Session::new(3, Collect);
    assert_eq!(session.session_id, 3);
    assert_eq!(session.db, "admin");
    let mut batch = ReplyBatch::new();
    let ctx = session.make_cmd_ctx(cmd(&["PING"]), batch.new_reply_sender());
    assert_eq!(ctx.get_db(), "admin");
    assert_eq!(ctx.get_session_id(), 3);
    assert_eq!(ctx.slowlog.events, vec![TaskEvent::Created]);
    let reply = ctx.set_result(Ok(Resp::Simple(b"PONG".to_vec())));
    assert_eq!(reply.slowlog.events, vec![TaskEvent::Created, TaskEvent::WaitDone]);
    assert_eq!(reply.slowlog.session_id, 3);
    assert_eq!(reply.request.get_type(), CmdType::Ping);
    let mut session = session;
    session.set_db_name("mydb".to_string());
    let ctx = session.make_cmd_ctx(cmd(&["PING"]), batch.new_reply_sender());
    assert_eq!(ctx.get_db(), "mydb");

    let mut select = session.make_cmd_ctx(cmd(&["SELECT", "other"]), batch.new_reply_sender());
    select.set_db_name("other".to_string());
    let reply = select.set_result(Ok(Resp::Simple(b"OK".to_vec())));
    assert_eq!(reply.db_change, Some("other".to_string()));
    session.apply_reply_db(&reply);
    assert_eq!(session.db, "other");
    let plain = session.make_cmd_ctx(cmd(&["PING"]), batch.new_reply_sender());
    let reply = plain.set_result(Ok(Resp::Simple(b"PONG".to_vec())));
    assert_eq!(reply.db_change, None);
    session.apply_reply_db(&reply);
    assert_eq!(session.db, "other");
}

#[test]
fn batch_release_rules() {
    assert!(batch_ready(1, 1, 0, 0, 100, 1000));
    assert!(!batch_ready(0, 1, 0, 5000, 100, 1000));
    assert!(!batch_ready(3, 16, 10, 10, 100, 1000));
    assert!(batch_ready(16, 16, 0, 0, 100, 1000));
    assert!(batch_ready(3, 16, 100, 100, 100, 1000));
    assert!(batch_ready(3, 16, 10, 1000, 100, 1000));
}

#[test]
fn retry_handler_always_goes_on() {
    assert_eq!(retry_handle_func(Resp::Error(b"ERR".to_vec())), Ok(()));
    assert_eq!(retry_handle_func(Resp::Integer(1)), Ok(()));
}
