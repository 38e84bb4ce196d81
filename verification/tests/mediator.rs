use brazier::{dispatch_result, Mediator, MediatorError, Request, RequestHandler};

#[derive(Debug)]
pub struct TestRequest {}

#[derive(Debug)]
pub struct TestRequestHandler;

impl Request<i64> for TestRequest {
    const KEY: u64 = 1;
}

impl RequestHandler<TestRequest, i64> for TestRequestHandler {
    fn handle(&mut self, _request: TestRequest) -> Result<i64, MediatorError> {
        Ok(42)
    }
}

#[test]
fn test_mediator_register_handler() {
    let mut m = Mediator::new();
    m.register_handler(TestRequestHandler);
    assert_eq!(m.send(TestRequest {}).unwrap(), 42);
}

#[test]
fn test_mediator_no_handler_registered() {
    let mut m = Mediator::new();
    match m.send::<TestRequest, i64>(TestRequest {}) {
        Ok(_) => assert!(false),
        Err(err) => {
            assert_eq!(err, MediatorError::HandlerNotRegisteredError);
        }
    }
}

#[test]
fn handler_stays_usable_across_sends() {
    let mut m = Mediator::new();
    m.register_handler(TestRequestHandler);
    assert_eq!(m.send(TestRequest {}).unwrap(), 42);
    assert_eq!(m.send(TestRequest {}).unwrap(), 42);
}

pub struct Ping {}

impl Request<String> for Ping {
    const KEY: u64 = 2;
}

#[derive(Debug)]
pub struct PingHandler;

impl RequestHandler<Ping, String> for PingHandler {
    fn handle(&mut self, _request: Ping) -> Result<String, MediatorError> {
        Ok(String::from("pong!"))
    }
}

#[test]
fn ping_yields_pong() {
    let mut m = Mediator::new();
    m.register_handler(PingHandler);
    assert_eq!(m.send(Ping {}).unwrap(), String::from("pong!"));
}

pub struct FixedAnswerHandler {
    pub answer: i64,
}

impl RequestHandler<TestRequest, i64> for FixedAnswerHandler {
    fn handle(&mut self, _request: TestRequest) -> Result<i64, MediatorError> {
        Ok(self.answer)
    }
}

#[test]
fn second_registration_wins() {
    let mut m = Mediator::new();
    m.register_handler(FixedAnswerHandler { answer: 1 });
    m.register_handler(FixedAnswerHandler { answer: 2 });
    assert_eq!(m.send(TestRequest {}).unwrap(), 2);
}

#[test]
fn registration_chains() {
    let mut m = Mediator::new();
    m.register_handler(PingHandler).register_handler(TestRequestHandler);
    assert_eq!(m.send(Ping {}).unwrap(), String::from("pong!"));
    assert_eq!(m.send(TestRequest {}).unwrap(), 42);
}

#[test]
fn distinct_request_types_do_not_cross_talk() {
    let mut m = Mediator::new();
    m.register_handler(TestRequestHandler);
    m.register_handler(PingHandler);
    assert_eq!(m.send(TestRequest {}).unwrap(), 42);
    assert_eq!(m.send(Ping {}).unwrap(), String::from("pong!"));
    assert_eq!(m.send(TestRequest {}).unwrap(), 42);
}

pub struct Failing {}

impl Request<i64> for Failing {
    const KEY: u64 = 3;
}

pub struct FailingHandler;

impl RequestHandler<Failing, i64> for FailingHandler {
    fn handle(&mut self, _request: Failing) -> Result<i64, MediatorError> {
        Err(MediatorError::HandlerError(String::from("boom")))
    }
}

#[test]
fn handler_failure_passes_through_unchanged() {
    let mut m = Mediator::new();
    m.register_handler(FailingHandler);
    assert_eq!(
        m.send(Failing {}),
        Err(MediatorError::HandlerError(String::from("boom")))
    );
}

pub struct CountCalls {}

impl Request<u32> for CountCalls {
    const KEY: u64 = 4;
}

pub struct CountingHandler {
    pub calls: u32,
}

impl RequestHandler<CountCalls, u32> for CountingHandler {
    fn handle(&mut self, _request: CountCalls) -> Result<u32, MediatorError> {
        self.calls += 1;
        Ok(self.calls)
    }
}

#[test]
fn handler_state_persists_in_registry() {
    let mut m = Mediator::new();
    m.register_handler(CountingHandler { calls: 0 });
    assert_eq!(m.send(CountCalls {}).unwrap(), 1);
    assert_eq!(m.send(CountCalls {}).unwrap(), 2);
}

pub struct CollidingRequest {}

impl Request<i64> for CollidingRequest {
    const KEY: u64 = 1;
}

#[test]
fn colliding_key_fails_safely() {
    let mut m = Mediator::new();
    m.register_handler(TestRequestHandler);
    assert_eq!(
        m.send::<CollidingRequest, i64>(CollidingRequest {}),
        Err(MediatorError::HandlerNotRegisteredError)
    );
    assert_eq!(m.send(TestRequest {}).unwrap(), 42);
}

#[test]
fn dispatch_result_passes_outcomes_through() {
    assert_eq!(dispatch_result(Some(Ok::<i64, MediatorError>(7))), Ok(7));
    assert_eq!(
        dispatch_result(Some(Err::<i64, MediatorError>(MediatorError::HandlerError(
            String::from("boom")
        )))),
        Err(MediatorError::HandlerError(String::from("boom")))
    );
    assert_eq!(
        dispatch_result(None::<Result<i64, MediatorError>>),
        Err(MediatorError::HandlerNotRegisteredError)
    );
}

#[test]
fn error_messages() {
    assert_eq!(
        MediatorError::HandlerNotRegisteredError.message(),
        String::from("Handler not registered")
    );
    assert_eq!(
        MediatorError::HandlerError(String::from("boom")).message(),
        String::from("boom")
    );
}
