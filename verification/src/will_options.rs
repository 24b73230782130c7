use vstd::prelude::*;

verus! {

/// The message a broker publishes on the client's behalf when the
/// connection is lost unexpectedly.
#[derive(Debug, PartialEq, Eq)]
pub struct WillOptions {
    /// Topic the message is published to.
    pub topic: String,
    /// Body of the message.
    pub payload: Vec<u8>,
    /// Quality of service the message is published with.
    pub qos: i32,
    /// Whether the broker retains the message.
    pub retained: bool,
}

/// What a [`WillOptions`] holds, as plain values.
pub struct WillOptionsView {
    pub topic: Seq<char>,
    pub payload: Seq<u8>,
    pub qos: i32,
    pub retained: bool,
}

impl View for WillOptions {
    type V = WillOptionsView;

    open spec fn view(&self) -> WillOptionsView {
        WillOptionsView {
            topic: self.topic@,
            payload: self.payload@,
            qos: self.qos,
            retained: self.retained,
        }
    }
}

impl WillOptions {
    /// Options for an empty, unretained message on the empty topic, at
    /// quality of service zero.
    pub fn new() -> (will: WillOptions)
        ensures
            will@ == (WillOptionsView {
                topic: Seq::empty(),
                payload: Seq::empty(),
                qos: 0,
                retained: false,
            }),
    {
        WillOptions { topic: String::new(), payload: Vec::new(), qos: 0, retained: false }
    }
}

impl Clone for WillOptions {
    /// A deep copy: the topic and the payload are duplicated into storage
    /// of the copy's own.
    fn clone(&self) -> (copy: WillOptions)
        ensures
            copy@ == self@,
    {
        let payload = self.payload.clone();
        assert(payload@ =~= self.payload@);
        WillOptions {
            topic: self.topic.clone(),
            payload,
            qos: self.qos,
            retained: self.retained,
        }
    }
}

} // verus!
