use any_dns::custom_handler::{CustomHandler, EmptyHandler, HandlerHolder};
use any_dns::error::Error;
use std::sync::atomic::{AtomicUsize, Ordering};
use std::sync::Arc;

struct ClonableStruct {
    value: String,
}

impl Clone for ClonableStruct {
    fn clone(&self) -> Self {
        Self { value: format!("{} cloned", self.value.clone()) }
    }
}

#[derive(Clone)]
pub struct TestHandler {
    value: ClonableStruct,
}

impl TestHandler {
    pub fn new(value: &str) -> Self {
        TestHandler { value: ClonableStruct { value: value.to_string() } }
    }
}

impl CustomHandler for TestHandler {
    fn lookup(&self, _query: &Vec<u8>) -> Result<Vec<u8>, Error> {
        println!("value {}", self.value.value);
        Err(Error::Static("Not implemented"))
    }
}

#[test]
fn run_processor() {
    let test1 = TestHandler::new("test1");
    let holder1 = HandlerHolder::new(test1);
    let cloned = holder1.clone();
    let result = cloned.call(&vec![]);
    assert!(result.is_err());
}

#[test]
fn empty_handler_declines() {
    let handler = EmptyHandler::new();
    let result = handler.lookup(&vec![0x12, 0x34]);
    assert!(matches!(result, Err(Error::Static("Not implemented"))));
    let holder = HandlerHolder::new(EmptyHandler::new());
    assert!(matches!(holder.call(&vec![]), Err(Error::Static("Not implemented"))));
}

struct Counting {
    calls: AtomicUsize,
    seen: Arc<AtomicUsize>,
}

impl CustomHandler for Counting {
    fn lookup(&self, query: &Vec<u8>) -> Result<Vec<u8>, Error> {
        let call = self.calls.fetch_add(1, Ordering::SeqCst) + 1;
        self.seen.store(call, Ordering::SeqCst);
        Ok(vec![call as u8, query.len() as u8])
    }
}

#[test]
fn holder_hands_the_query_to_the_handler_and_its_answer_back() {
    let seen = Arc::new(AtomicUsize::new(0));
    let holder = HandlerHolder::new(Counting { calls: AtomicUsize::new(0), seen: seen.clone() });
    let answer = holder.call(&vec![1, 2, 3]).expect("the handler answers");
    assert_eq!(answer, vec![1, 3]);
}

#[test]
fn cloned_holder_shares_the_handler() {
    let seen = Arc::new(AtomicUsize::new(0));
    let holder = HandlerHolder::new(Counting { calls: AtomicUsize::new(0), seen: seen.clone() });
    let other = holder.clone();
    assert_eq!(holder.call(&vec![]).unwrap(), vec![1, 0]);
    // A copy of the handler would count from one again.
    assert_eq!(other.call(&vec![]).unwrap(), vec![2, 0]);
    assert_eq!(holder.call(&vec![]).unwrap(), vec![3, 0]);
    assert_eq!(seen.load(Ordering::SeqCst), 3);
}
