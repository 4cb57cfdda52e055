//! Queues, and the options of declaring and deleting one.
use vstd::prelude::*;

verus! {

/// How a queue is declared. `arguments` holds the encoded argument table.
#[derive(Clone, Debug, Default)]
pub struct QueueDeclareOptions {
    pub durable: bool,
    pub exclusive: bool,
    pub auto_delete: bool,
    pub arguments: Vec<u8>,
}

/// The fields of `queue.declare`.
pub struct Declare {
    pub ticket: u16,
    pub queue: String,
    pub passive: bool,
    pub durable: bool,
    pub exclusive: bool,
    pub auto_delete: bool,
    pub nowait: bool,
    pub arguments: Vec<u8>,
}

impl QueueDeclareOptions {
    /// The `queue.declare` method for queue `name` with these options.
    pub fn into_declare(self, name: String, passive: bool, nowait: bool) -> (r: Declare)
        ensures
            r.ticket == 0,
            r.queue == name,
            r.passive == passive,
            r.durable == self.durable,
            r.exclusive == self.exclusive,
            r.auto_delete == self.auto_delete,
            r.nowait == nowait,
            r.arguments == self.arguments,
    {
        Declare {
            ticket: 0,
            queue: name,
            passive,
            durable: self.durable,
            exclusive: self.exclusive,
            auto_delete: self.auto_delete,
            nowait,
            arguments: self.arguments,
        }
    }
}

/// How a queue is deleted.
pub struct QueueDeleteOptions {
    pub if_unused: bool,
    pub if_empty: bool,
    pub nowait: bool,
}

/// A declared queue, with the counts the server gave on declaring it.
pub struct Queue {
    name: String,
    message_count: Option<u32>,
    consumer_count: Option<u32>,
}

impl Queue {
    pub closed spec fn spec_name(&self) -> Seq<char> {
        self.name@
    }

    pub closed spec fn spec_message_count(&self) -> Option<u32> {
        self.message_count
    }

    pub closed spec fn spec_consumer_count(&self) -> Option<u32> {
        self.consumer_count
    }

    pub fn new(name: String, message_count: Option<u32>, consumer_count: Option<u32>) -> (r: Queue)
        ensures
            r.spec_name() == name@,
            r.spec_message_count() == message_count,
            r.spec_consumer_count() == consumer_count,
    {
        Queue { name, message_count, consumer_count }
    }

    pub fn name(&self) -> (r: &str)
        ensures
            r@ == self.spec_name(),
    {
        self.name.as_str()
    }

    pub fn declared_message_count(&self) -> (r: Option<u32>)
        ensures
            r == self.spec_message_count(),
    {
        self.message_count
    }

    pub fn declared_consumer_count(&self) -> (r: Option<u32>)
        ensures
            r == self.spec_consumer_count(),
    {
        self.consumer_count
    }
}

} // verus!
