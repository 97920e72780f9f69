use connect_bridge::command::Dispatch;
use connect_bridge::command::JsPlayerWrapper;
use connect_bridge::command::Message;
use connect_bridge::command::SendError;
use connect_bridge::command::SubmitError;

type Work = Box<dyn FnOnce(&mut Vec<u32>, u32) + Send>;

fn drain(bridge: &mut JsPlayerWrapper<u32, u32>) -> Vec<(u32, u32)> {
    let mut out = Vec::new();
    loop {
        match bridge.listen_commands() {
            Dispatch::Run(deferred, callback) => {
                out.push((deferred, callback));
                bridge.complete();
            }
            Dispatch::Idle | Dispatch::Stop => return out,
            Dispatch::Busy => panic!("a command was still running"),
        }
    }
}

#[test]
fn commands_run_in_submission_order() {
    let mut bridge: JsPlayerWrapper<u32, u32> = JsPlayerWrapper::new();
    let mut n = 0;
    while n < 25 {
        assert_eq!(bridge.send(n, 1000 + n), Ok(()));
        n += 1;
    }
    let ran = drain(&mut bridge);
    assert_eq!(ran.len(), 25);
    let mut i = 0;
    while i < 25 {
        assert_eq!(ran[i as usize], (i, 1000 + i));
        i += 1;
    }
}

#[test]
fn recorded_execution_index_matches_submission_index() {
    let mut bridge: JsPlayerWrapper<u32, Work> = JsPlayerWrapper::new();
    let mut n = 0;
    while n < 10 {
        let work: Work = Box::new(|session: &mut Vec<u32>, deferred: u32| session.push(deferred));
        assert!(bridge.send(n, work).is_ok());
        n += 1;
    }
    let mut session: Vec<u32> = Vec::new();
    loop {
        match bridge.listen_commands() {
            Dispatch::Run(deferred, work) => {
                work(&mut session, deferred);
                bridge.complete();
            }
            _ => break,
        }
    }
    assert_eq!(session, vec![0, 1, 2, 3, 4, 5, 6, 7, 8, 9]);
}

#[test]
fn hundred_commands_complete_exactly_once() {
    let mut bridge: JsPlayerWrapper<u32, u32> = JsPlayerWrapper::new();
    let mut n = 0;
    while n < 100 {
        assert_eq!(bridge.send(n, 0), Ok(()));
        n += 1;
    }
    let mut resolved = vec![0u32; 100];
    for (deferred, _) in drain(&mut bridge) {
        resolved[deferred as usize] += 1;
    }
    assert_eq!(resolved, vec![1u32; 100]);
    assert_eq!(bridge.listen_commands(), Dispatch::Idle);
}

#[test]
fn no_command_is_handed_out_while_one_runs() {
    let mut bridge: JsPlayerWrapper<u32, u32> = JsPlayerWrapper::new();
    assert_eq!(bridge.send(1, 10), Ok(()));
    assert_eq!(bridge.send(2, 20), Ok(()));
    let mut running = 0;
    assert_eq!(bridge.listen_commands(), Dispatch::Run(1, 10));
    running += 1;
    assert_eq!(bridge.listen_commands(), Dispatch::Busy);
    assert_eq!(bridge.listen_commands(), Dispatch::Busy);
    assert_eq!(running, 1);
    bridge.complete();
    running -= 1;
    assert_eq!(bridge.listen_commands(), Dispatch::Run(2, 20));
    running += 1;
    assert_eq!(running, 1);
    bridge.complete();
    assert_eq!(bridge.listen_commands(), Dispatch::Idle);
}

#[test]
fn empty_open_channel_is_idle() {
    let mut bridge: JsPlayerWrapper<u32, u32> = JsPlayerWrapper::new();
    assert_eq!(bridge.listen_commands(), Dispatch::Idle);
    assert_eq!(bridge.listen_commands(), Dispatch::Idle);
    assert_eq!(bridge.send(5, 6), Ok(()));
    assert_eq!(bridge.listen_commands(), Dispatch::Run(5, 6));
}

#[test]
fn send_after_close_is_refused_as_closed() {
    let mut bridge: JsPlayerWrapper<u32, u32> = JsPlayerWrapper::new();
    assert_eq!(bridge.send(1, 10), Ok(()));
    assert_eq!(bridge.send(2, 20), Ok(()));
    assert_eq!(bridge.close(), Ok(()));
    assert_eq!(
        bridge.send(3, 30),
        Err(SendError { reason: SubmitError::Closed, message: Message::Callback(3, 30) })
    );
    assert_eq!(drain(&mut bridge), vec![(1, 10), (2, 20)]);
    assert_eq!(bridge.listen_commands(), Dispatch::Stop);
    assert_eq!(
        bridge.send(4, 40),
        Err(SendError { reason: SubmitError::Closed, message: Message::Callback(4, 40) })
    );
}

#[test]
fn close_twice_is_refused_and_harmless() {
    let mut bridge: JsPlayerWrapper<u32, u32> = JsPlayerWrapper::new();
    assert_eq!(bridge.send(1, 10), Ok(()));
    assert_eq!(bridge.close(), Ok(()));
    assert_eq!(
        bridge.close(),
        Err(SendError { reason: SubmitError::Closed, message: Message::Close })
    );
    assert_eq!(bridge.listen_commands(), Dispatch::Run(1, 10));
    bridge.complete();
    assert_eq!(bridge.listen_commands(), Dispatch::Stop);
    assert_eq!(bridge.listen_commands(), Dispatch::Stop);
    assert_eq!(
        bridge.close(),
        Err(SendError { reason: SubmitError::Closed, message: Message::Close })
    );
}

#[test]
fn close_of_an_empty_channel_stops_the_dispatcher() {
    let mut bridge: JsPlayerWrapper<u32, u32> = JsPlayerWrapper::new();
    assert_eq!(bridge.close(), Ok(()));
    assert_eq!(bridge.listen_commands(), Dispatch::Stop);
}

#[test]
fn disconnect_hands_back_what_was_queued() {
    let mut bridge: JsPlayerWrapper<u32, u32> = JsPlayerWrapper::new();
    assert_eq!(bridge.send(1, 10), Ok(()));
    assert_eq!(bridge.send(2, 20), Ok(()));
    assert_eq!(bridge.listen_commands(), Dispatch::Run(1, 10));
    let abandoned = bridge.disconnect();
    assert_eq!(abandoned.len(), 1);
    assert_eq!(abandoned[0], Message::Callback(2, 20));
    assert_eq!(
        bridge.send(3, 30),
        Err(SendError { reason: SubmitError::Disconnected, message: Message::Callback(3, 30) })
    );
    assert_eq!(
        bridge.close(),
        Err(SendError { reason: SubmitError::Disconnected, message: Message::Close })
    );
    assert_eq!(bridge.listen_commands(), Dispatch::Stop);
}
