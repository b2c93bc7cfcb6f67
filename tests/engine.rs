use quic_rpc::client::{
    BidiItemError, CallEvent, CallStage, ClientStreamingItemError, RpcAction, RpcClient,
    RpcClientError, StreamAction, StreamingResponseItemError,
};
use quic_rpc::mapper::{Envelope, Mapper};
use quic_rpc::pattern::{MsgDecl, Pattern};
use quic_rpc::server::{RpcChannel, RpcServer, RpcServerError, UpdateError};
use std::collections::BTreeSet;

type Ev = CallEvent<i64, &'static str, &'static str, &'static str>;

const ADD: u32 = 0;
const ADD_RES: u32 = 0;

fn add_decl() -> MsgDecl {
    MsgDecl::new(Pattern::Rpc, ADD, ADD_RES, 0)
}

/// Runs one rpc call against an in-process server that answers with `f`.
fn call_add(client: &RpcClient<()>, server: &RpcServer<()>, x: (i64, i64)) -> Result<i64, RpcClientError<&'static str, &'static str, &'static str>> {
    let decl = add_decl();
    let mut call = client.rpc(&decl, x);
    let head = match call.step::<i64, &str, &str, &str>(CallEvent::Opened) {
        RpcAction::Send(h) => h,
        _ => panic!("expected a send"),
    };
    assert!(matches!(call.step::<i64, &str, &str, &str>(CallEvent::Sent), RpcAction::Recv));
    let (head, chan) = server.accepted::<(i64, i64), (), ()>(Some(Ok(head))).unwrap();
    let msg = chan.request(&decl, head).ok().unwrap();
    let answer = chan.rpc(&decl, msg, (), |_s: (), (a, b): (i64, i64)| a + b);
    match call.step::<i64, &str, &str, &str>(CallEvent::Received(Some(Ok(answer)))) {
        RpcAction::Finish(r) => r,
        _ => panic!("expected the end of the call"),
    }
}

#[test]
fn rpc_add_two_and_three() {
    let client = RpcClient::new(());
    let server = RpcServer::new(());
    assert_eq!(call_add(&client, &server, (2, 3)), Ok(5));
}

#[test]
fn rpc_concurrent_calls_are_independent() {
    let client = RpcClient::new(());
    let server = RpcServer::new(());
    let decl = add_decl();
    let mut calls: Vec<_> = (0..3).map(|i| client.rpc(&decl, (2i64, i as i64))).collect();
    let mut heads = Vec::new();
    for c in calls.iter_mut() {
        match c.step::<i64, &str, &str, &str>(CallEvent::Opened) {
            RpcAction::Send(h) => heads.push(h),
            _ => panic!("expected a send"),
        }
        assert!(matches!(c.step::<i64, &str, &str, &str>(CallEvent::Sent), RpcAction::Recv));
    }
    // answer in reverse order
    let mut results = BTreeSet::new();
    for (c, head) in calls.iter_mut().zip(heads.into_iter()).rev() {
        let (head, chan) = server.accepted::<(i64, i64), (), ()>(Some(Ok(head))).unwrap();
        let msg = chan.request(&decl, head).ok().unwrap();
        let answer = chan.rpc(&decl, msg, (), |_s: (), (a, b): (i64, i64)| a + b);
        match c.step::<i64, &str, &str, &str>(CallEvent::Received(Some(Ok(answer)))) {
            RpcAction::Finish(Ok(v)) => {
                results.insert(v);
            }
            _ => panic!("expected a result"),
        }
    }
    assert_eq!(results, BTreeSet::from([2, 3, 4]));
}

#[test]
fn rpc_errors_at_each_step() {
    let client = RpcClient::new(());
    let decl = add_decl();

    let mut call = client.rpc(&decl, (1i64, 1i64));
    assert_eq!(call.step::<i64, &str, &str, &str>(CallEvent::OpenFailed("no peer")), RpcAction::Finish(Err(RpcClientError::Open("no peer"))));
    assert_eq!(call.stage_now(), CallStage::Finished);

    let mut call = client.rpc(&decl, (1i64, 1i64));
    let _ = call.step::<i64, &str, &str, &str>(CallEvent::Opened);
    assert_eq!(call.step::<i64, &str, &str, &str>(CallEvent::SendFailed("broken")), RpcAction::Finish(Err(RpcClientError::Send("broken"))));

    let mut call = client.rpc(&decl, (1i64, 1i64));
    let _ = call.step::<i64, &str, &str, &str>(CallEvent::Opened);
    let _ = call.step::<i64, &str, &str, &str>(CallEvent::Sent);
    assert_eq!(call.step::<i64, &str, &str, &str>(CallEvent::Received(None)), RpcAction::Finish(Err(RpcClientError::EarlyClose)));

    let mut call = client.rpc(&decl, (1i64, 1i64));
    let _ = call.step::<i64, &str, &str, &str>(CallEvent::Opened);
    let _ = call.step::<i64, &str, &str, &str>(CallEvent::Sent);
    assert_eq!(call.step::<i64, &str, &str, &str>(CallEvent::Received(Some(Err("reset")))), RpcAction::Finish(Err(RpcClientError::RecvError("reset"))));

    let mut call = client.rpc(&decl, (1i64, 1i64));
    let _ = call.step::<i64, &str, &str, &str>(CallEvent::Opened);
    let _ = call.step::<i64, &str, &str, &str>(CallEvent::Sent);
    let wrong = Envelope { route: vec![9], body: 2i64 };
    assert_eq!(call.step::<i64, &str, &str, &str>(CallEvent::Received(Some(Ok(wrong)))), RpcAction::Finish(Err(RpcClientError::DowncastError)));
}

#[test]
fn call_accepts_only_the_expected_event() {
    let client = RpcClient::new(());
    let mut call = client.rpc(&add_decl(), (1i64, 1i64));
    let sent: Ev = CallEvent::Sent;
    let opened: Ev = CallEvent::Opened;
    assert!(!call.accepts(&sent));
    assert!(call.accepts(&opened));
    let _ = call.step(opened);
    assert!(call.accepts(&sent));
    assert_eq!(call.stage_now(), CallStage::Sending);
}

#[test]
fn mapped_client_wraps_head_and_unwraps_response() {
    // outer service: variant 4 holds the calc service
    let client = RpcClient::new(()).map(4);
    assert_eq!(client.mapper().links(), &vec![4]);
    let decl = add_decl();
    let mut call = client.rpc(&decl, (2i64, 3i64));
    let head = match call.step::<i64, &str, &str, &str>(CallEvent::Opened) {
        RpcAction::Send(h) => h,
        _ => panic!("expected a send"),
    };
    assert_eq!(head.route, vec![4, ADD]);
    // the server speaks the outer envelope directly
    let server = RpcServer::new(());
    let (head, chan) = server.accepted::<(i64, i64), (), ()>(Some(Ok(head))).unwrap();
    let outer = decl.embed(4);
    assert_eq!(outer.request, vec![4, ADD]);
    let msg = chan.request(&outer, head).ok().unwrap();
    let answer = chan.rpc(&outer, msg, (), |_s: (), (a, b): (i64, i64)| a + b);
    assert_eq!(answer.route, vec![4, ADD_RES]);
    let _ = call.step::<i64, &str, &str, &str>(CallEvent::Sent);
    assert_eq!(call.step::<i64, &str, &str, &str>(CallEvent::Received(Some(Ok(answer)))), RpcAction::Finish(Ok(5)));
}

#[test]
fn server_streaming_ticks_arrive_in_order() {
    let client = RpcClient::new(());
    let decl = MsgDecl::new(Pattern::ServerStreaming, 1, 1, 0);
    let mut call = client.server_streaming(&decl, ());
    let head = match call.step::<usize, &str, &str, &str>(CallEvent::Opened) {
        StreamAction::Send(h) => h,
        _ => panic!("expected a send"),
    };
    assert!(matches!(call.step::<usize, &str, &str, &str>(CallEvent::Sent), StreamAction::Established));
    let server = RpcServer::new(());
    let (head, chan) = server.accepted::<(), (), ()>(Some(Ok(head))).unwrap();
    assert!(chan.request(&decl, head).is_ok());
    let current = 7usize;
    let written: Vec<Envelope<usize>> = (0..3).map(|i| chan.response(&decl, current + i)).collect();
    let decoder = call.responses();
    let seen: Vec<usize> = written
        .into_iter()
        .map(|e| decoder.server_streaming_item::<usize, &str>(Ok(e)).unwrap())
        .collect();
    assert_eq!(seen, vec![7, 8, 9]);
    assert!(seen.windows(2).all(|w| w[0] <= w[1]));
    assert_eq!(
        decoder.server_streaming_item::<usize, &str>(Err("reset")),
        Err(StreamingResponseItemError::RecvError("reset"))
    );
    assert_eq!(
        decoder.server_streaming_item::<usize, &str>(Ok(Envelope { route: vec![2], body: 1 })),
        Err(StreamingResponseItemError::DowncastError)
    );
}

#[test]
fn client_streaming_sum_of_updates() {
    let client = RpcClient::new(());
    let decl = MsgDecl::new(Pattern::ClientStreaming, 2, 2, 3);
    let mut call = client.client_streaming(&decl, ());
    let head = match call.step::<i64, &str, &str, &str>(CallEvent::Opened) {
        StreamAction::Send(h) => h,
        _ => panic!("expected a send"),
    };
    assert!(matches!(call.step::<i64, &str, &str, &str>(CallEvent::Sent), StreamAction::Established));
    let mut sink = call.updates(Vec::<Envelope<i64>>::new());
    for u in [1i64, 2, 3] {
        let env = sink.start_send(u);
        sink.get_mut().push(env);
    }
    let wire = sink.into_inner();

    let server = RpcServer::new(());
    let (head, chan) = server.accepted::<(), (), ()>(Some(Ok(head))).unwrap();
    assert!(chan.request(&decl, head).is_ok());
    let mut updates = chan.updates(&decl);
    let mut sum = 0i64;
    let mut incoming = wire.into_iter();
    while let Some(item) = updates.next::<i64, &str>(incoming.next().map(Ok)) {
        sum += item.unwrap();
    }
    assert!(updates.is_ended());
    assert_eq!(sum, 6);
    let answer = chan.response(&decl, sum);
    assert_eq!(call.responses().client_streaming_response::<i64, &str>(Some(Ok(answer))), Ok(6));
    assert_eq!(
        call.responses().client_streaming_response::<i64, &str>(None),
        Err(ClientStreamingItemError::EarlyClose)
    );
}

#[test]
fn bidi_keeps_each_direction_in_order() {
    let client = RpcClient::new(()).map(1);
    let decl = MsgDecl::new(Pattern::BidiStreaming, 5, 6, 7);
    let mut call = client.bidi(&decl, ());
    let _ = call.step::<u8, &str, &str, &str>(CallEvent::Opened);
    let _ = call.step::<u8, &str, &str, &str>(CallEvent::Sent);
    let sink = call.updates(());
    let sent: Vec<Envelope<u8>> = [10u8, 20, 30].into_iter().map(|u| sink.start_send(u)).collect();
    assert_eq!(sent[0].route, vec![1, 7]);
    let chan = RpcChannel::new().map(1);
    let mut updates = chan.updates(&decl);
    let got: Vec<u8> = sent.into_iter().map(|e| updates.next::<u8, &str>(Some(Ok(e))).unwrap().unwrap()).collect();
    assert_eq!(got, vec![10, 20, 30]);
    let decoder = call.responses();
    let back: Vec<u8> = [3u8, 2, 1].into_iter().map(|r| decoder.bidi_item::<u8, &str>(Ok(chan.response(&decl, r))).unwrap()).collect();
    assert_eq!(back, vec![3, 2, 1]);
    assert_eq!(decoder.bidi_item::<u8, &str>(Err("gone")), Err(BidiItemError::RecvError("gone")));
}

#[test]
fn update_stream_ends_after_close_and_after_errors() {
    let decl = MsgDecl::new(Pattern::BidiStreaming, 5, 6, 7);
    let chan = RpcChannel::new();
    let mut updates = chan.updates(&decl);
    assert_eq!(updates.next::<u8, &str>(None), None);
    assert!(updates.is_ended());
    assert_eq!(updates.next::<u8, &str>(Some(Ok(Envelope { route: vec![7], body: 1 }))), None);

    let mut updates = chan.updates(&decl);
    assert_eq!(updates.next::<u8, &str>(Some(Ok(Envelope { route: vec![6], body: 1 }))), Some(Err(UpdateError::DowncastError)));
    assert!(updates.is_ended());

    let mut updates = chan.updates(&decl);
    assert_eq!(updates.next::<u8, &str>(Some(Err("reset"))), Some(Err(UpdateError::RecvError("reset"))));
    assert!(updates.is_ended());
}

#[test]
fn server_accept_errors() {
    let server = RpcServer::new(());
    assert!(matches!(server.accepted::<u8, (), &str>(None), Err(RpcServerError::EarlyClose)));
    assert!(matches!(server.accepted::<u8, (), &str>(Some(Err("x"))), Err(RpcServerError::RecvError("x"))));
    assert!(matches!(server.accept_failed::<u8, &str, ()>("down"), Err(RpcServerError::Accept("down"))));
    let decl = add_decl();
    let chan = RpcChannel::new();
    let other = Envelope { route: vec![1], body: 0u8 };
    assert_eq!(chan.request(&decl, other.clone()), Err(other));
}

#[test]
fn mapper_chain_and_projection() {
    let m = Mapper::new();
    let m2 = m.chain(1).chain(2);
    assert_eq!(m2.links(), &vec![1, 2]);
    let shared = m2.share();
    assert_eq!(shared.links(), &vec![1, 2]);
    let out = m2.req_into_outer(Envelope { route: vec![9], body: 'x' });
    assert_eq!(out.route, vec![1, 2, 9]);
    let back = m2.res_try_into_inner(out).unwrap();
    assert_eq!(back, Envelope { route: vec![9], body: 'x' });
    assert_eq!(m2.res_try_into_inner(Envelope { route: vec![1, 3, 9], body: 'x' }), None);
    assert_eq!(m.res_try_into_inner(Envelope { route: vec![5], body: 1 }), Some(Envelope { route: vec![5], body: 1 }));
    assert_eq!(m2.downcast(&vec![9], Envelope { route: vec![1, 2, 9], body: 3 }), Ok(3));
}

#[test]
fn pattern_tags() {
    assert!(Pattern::ClientStreaming.has_updates());
    assert!(Pattern::BidiStreaming.has_updates());
    assert!(!Pattern::Rpc.has_updates());
    assert!(Pattern::ServerStreaming.streams_responses());
    assert!(!Pattern::ClientStreaming.streams_responses());
    let d = MsgDecl::new(Pattern::Rpc, 1, 2, 3).embed(8).embed(9);
    assert_eq!(d.request, vec![9, 8, 1]);
    assert_eq!(d.response, vec![9, 8, 2]);
    assert_eq!(d.update, vec![9, 8, 3]);
}

#[test]
fn client_keeps_its_connection() {
    let client = RpcClient::new(41u32);
    assert_eq!(*client.connection(), 41);
    assert_eq!(*AsRef::<u32>::as_ref(&client), 41);
    let copy = client.clone().map(2).map(5);
    assert_eq!(copy.mapper().links(), &vec![2, 5]);
    assert_eq!(client.mapper().links(), &Vec::<u32>::new());
    assert_eq!(copy.into_inner(), 41);
    let server = RpcServer::new("listener");
    assert_eq!(*server.listener(), "listener");
    assert_eq!(server.into_inner(), "listener");
}

#[test]
fn server_streaming_dispatch_runs_the_handler() {
    let decl = MsgDecl::new(Pattern::ServerStreaming, 1, 1, 0);
    let chan = RpcChannel::new().map(3);
    let written = chan.server_streaming(&decl, 4u32, 10u32, |start: u32, n: u32| (start..start + n).collect::<Vec<u32>>());
    let routes: Vec<Vec<u32>> = written.iter().map(|e| e.route.clone()).collect();
    assert_eq!(routes, vec![vec![3, 1]; 4]);
    let bodies: Vec<u32> = written.into_iter().map(|e| e.body).collect();
    assert_eq!(bodies, vec![10, 11, 12, 13]);
}
