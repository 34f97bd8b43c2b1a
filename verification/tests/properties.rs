use socks5_server::address::IpAddress;
use socks5_server::address::SocketAddress;
use socks5_server::error::IoErrorKind;
use socks5_server::request::ConnectOutcome;
use socks5_server::socket::Phase;
use socks5_server::Action;
use socks5_server::Authentication;
use socks5_server::Config;
use socks5_server::Event;
use socks5_server::SimpleUserPassword;
use socks5_server::Socks5Socket;
use socks5_server::SocksError;
use std::sync::Arc;

/// A small deterministic generator, so that every run sees the same inputs.
struct Lcg(u64);

impl Lcg {
    fn next(&mut self) -> u64 {
        self.0 = self.0.wrapping_mul(6364136223846793005).wrapping_add(1442695040888963407);
        self.0 >> 33
    }

    fn below(&mut self, n: u64) -> u64 {
        self.next() % n
    }

    fn pick(&mut self, from: &[u8]) -> u8 {
        from[self.below(from.len() as u64) as usize]
    }
}

fn rank(phase: Phase) -> u8 {
    match phase {
        Phase::Accepted => 0,
        Phase::Methods => 1,
        Phase::MethodReply | Phase::MethodRefusal => 2,
        Phase::Credentials => 3,
        Phase::AuthReply | Phase::AuthRefusal => 4,
        Phase::Request => 5,
        Phase::Resolving => 6,
        Phase::Connecting => 7,
        Phase::SuccessReply | Phase::FailureReply => 8,
        Phase::Relaying => 9,
        Phase::Closed => 10,
    }
}

fn is_method_selection(action: &Action) -> bool {
    matches!(action, Action::Write(bytes) if bytes.len() == 2 && bytes[0] == 0x05)
}

fn is_request_reply(action: &Action) -> bool {
    matches!(action, Action::Write(bytes)
        if bytes.len() == 10 && bytes[0] == 0x05 && bytes[2] == 0x00)
}

/// A client stream that is mostly well formed, so that runs reach deep phases.
fn stream(rng: &mut Lcg) -> Vec<u8> {
    let mut out = Vec::new();
    out.push(rng.pick(&[5, 5, 5, 5, 5, 5, 5, 4]));
    let count = rng.below(4) as u8;
    out.push(count);
    for _ in 0..count {
        out.push(rng.pick(&[0, 0, 2, 2, 1, 0xFF]));
    }
    if rng.below(2) == 0 {
        out.push(1);
        let user: &[u8] = [&b"user"[..], &b"usr"[..], &b""[..], &[0xFF, 0xFE][..]][rng.below(4) as usize];
        out.push(user.len() as u8);
        out.extend_from_slice(user);
        let pass: &[u8] = [&b"pass"[..], &b"past"[..], &b""[..]][rng.below(3) as usize];
        out.push(pass.len() as u8);
        out.extend_from_slice(pass);
    }
    out.push(rng.pick(&[5, 5, 5, 5, 5, 4]));
    out.push(rng.pick(&[1, 1, 1, 1, 2, 3]));
    out.push(rng.below(256) as u8);
    let atyp = rng.pick(&[1, 1, 3, 3, 4, 9]);
    out.push(atyp);
    match atyp {
        1 => out.extend_from_slice(&[127, 0, 0, 1]),
        4 => out.extend_from_slice(&[0; 16]),
        3 => {
            let name: &[u8] = [&b"example.com"[..], &b""[..], &b"a\0"[..], &[0xC3][..]][rng.below(4) as usize];
            out.push(name.len() as u8);
            out.extend_from_slice(name);
        }
        _ => {}
    }
    out.extend_from_slice(&[0x1F, 0x90]);
    let keep = if rng.below(4) == 0 { rng.below(out.len() as u64 + 1) as usize } else { out.len() };
    out.truncate(keep);
    out
}

fn settings(rng: &mut Lcg) -> Config {
    let mut config = Config::default();
    config
        .set_skip_auth(rng.below(4) == 0)
        .set_dns_resolve(rng.below(2) == 0)
        .set_execute_command(rng.below(4) != 0)
        .set_request_timeout(rng.below(3));
    if rng.below(2) == 0 {
        config.set_authentication(Arc::new(SimpleUserPassword {
            username: "user".to_string(),
            password: "pass".to_string(),
        }));
    }
    config
}

struct Trace {
    actions: Vec<Action>,
    phases: Vec<Phase>,
    reads_before_write: Vec<(Phase, usize)>,
}

fn run(config: Config, input: &[u8], rng: &mut Lcg) -> Trace {
    let mut socket = Socks5Socket::new(Arc::new(config));
    let mut trace = Trace { actions: Vec::new(), phases: Vec::new(), reads_before_write: Vec::new() };
    let mut consumed = 0usize;
    let mut pending_reads = 0usize;
    let mut before = socket.phase();
    let mut read_failed = false;
    let mut action = socket.advance(Event::Accepted);
    for _ in 0..200 {
        trace.actions.push(action.clone());
        trace.phases.push(socket.phase());
        assert!(rank(socket.phase()) >= rank(before));
        if read_failed {
            assert_eq!(action, Action::Abort(SocksError::Io(IoErrorKind::UnexpectedEof)));
        }
        read_failed = false;
        let event = match &action {
            Action::Read(n) => {
                assert!(*n >= 1);
                pending_reads += 1;
                if consumed + n <= input.len() {
                    consumed += n;
                    Event::Bytes(input[consumed - n..consumed].to_vec())
                } else {
                    read_failed = true;
                    Event::Failed(IoErrorKind::UnexpectedEof)
                }
            }
            Action::Write(_) => {
                trace.reads_before_write.push((before, pending_reads));
                pending_reads = 0;
                if rng.below(8) == 0 {
                    Event::Failed(IoErrorKind::ConnectionReset)
                } else {
                    Event::Written
                }
            }
            Action::Resolve(_, _) => Event::Resolved(if rng.below(3) == 0 {
                None
            } else {
                Some(SocketAddress { ip: IpAddress::V4([1, 2, 3, 4]), port: 80 })
            }),
            Action::Connect(_, _) => Event::Connected(match rng.below(4) {
                0 => ConnectOutcome::TimedOut,
                1 => ConnectOutcome::Failed(IoErrorKind::ConnectionRefused),
                _ => ConnectOutcome::Connected,
            }),
            Action::Relay => Event::RelayFinished,
            Action::Finish | Action::Abort(_) => {
                assert_eq!(socket.phase(), Phase::Closed);
                return trace;
            }
        };
        before = socket.phase();
        action = socket.advance(event);
    }
    panic!("the engine did not come to an end");
}

#[test]
fn at_most_one_method_selection_and_one_before_the_request() {
    let mut rng = Lcg(1);
    for _ in 0..3000 {
        let config = settings(&mut rng);
        let skip = config.skip_auth();
        let input = stream(&mut rng);
        let trace = run(config, &input, &mut rng);
        let mut selections = 0;
        for (action, phase) in trace.actions.iter().zip(trace.phases.iter()) {
            if is_method_selection(action) {
                selections += 1;
            }
            if !skip && rank(*phase) >= 2 && *phase != Phase::Closed {
                assert_eq!(selections, 1);
            }
            if rank(*phase) <= 1 {
                assert_eq!(selections, 0);
            }
        }
        assert!(selections <= 1);
        if skip {
            assert_eq!(selections, 0);
        }
    }
}

#[test]
fn at_most_one_reply_and_one_where_the_request_was_decided() {
    let mut rng = Lcg(2);
    let mut seen_one = 0;
    for _ in 0..3000 {
        let config = settings(&mut rng);
        let executes = config.execute_command();
        let input = stream(&mut rng);
        let trace = run(config, &input, &mut rng);
        let replies = trace.actions.iter().filter(|a| is_request_reply(a)).count();
        assert!(replies <= 1);
        seen_one += replies;
        match trace.actions.last().unwrap() {
            Action::Finish if executes => assert_eq!(replies, 1),
            Action::Finish => assert_eq!(replies, 0),
            Action::Abort(SocksError::ReplyError(_)) => assert_eq!(replies, 1),
            Action::Abort(SocksError::Io(_)) => {}
            Action::Abort(_) => assert_eq!(replies, 0),
            other => panic!("a run ended on {:?}", other),
        }
        for action in &trace.actions {
            if let Action::Write(bytes) = action {
                assert!(bytes.len() == 2 || is_request_reply(action));
            }
        }
    }
    assert!(seen_one > 100);
}

#[test]
fn nothing_is_written_while_a_message_is_being_read() {
    let mut rng = Lcg(3);
    for _ in 0..3000 {
        let config = settings(&mut rng);
        let input = stream(&mut rng);
        let trace = run(config, &input, &mut rng);
        for (index, action) in trace.actions.iter().enumerate() {
            if let Action::Write(_) = action {
                let phase = trace.phases[index];
                assert!(matches!(
                    phase,
                    Phase::MethodReply
                        | Phase::MethodRefusal
                        | Phase::AuthReply
                        | Phase::AuthRefusal
                        | Phase::SuccessReply
                        | Phase::FailureReply
                ));
                assert!(!matches!(trace.actions.get(index + 1), Some(Action::Write(_))));
            }
        }
        for (from, reads) in &trace.reads_before_write {
            match from {
                Phase::Methods | Phase::Credentials | Phase::Request => assert!(*reads >= 1),
                Phase::Resolving | Phase::Connecting => {}
                other => panic!("a write came out of {:?}", other),
            }
        }
    }
}

#[test]
fn credentials_are_accepted_exactly_when_their_bytes_are_equal() {
    let configured = SimpleUserPassword { username: "user".to_string(), password: "pa\u{df}".to_string() };
    let mut rng = Lcg(4);
    let alphabet = ["user", "usee", "use", "pa\u{df}", "pass", "pa\u{1e9e}", "", "USER"];
    for _ in 0..500 {
        let user = alphabet[rng.below(alphabet.len() as u64) as usize];
        let pass = alphabet[rng.below(alphabet.len() as u64) as usize];
        let same = user.as_bytes() == configured.username.as_bytes()
            && pass.as_bytes() == configured.password.as_bytes();
        assert_eq!(configured.authenticate(user, pass), same);
    }
    assert!(configured.authenticate("user", "pa\u{df}"));
}
