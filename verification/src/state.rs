use vstd::prelude::*;

use crate::codec::bin_enc_bytes_u64;
use crate::codec::bin_enc_u64;
use crate::codec::bin_enc_usize;
use crate::codec::bincode_decode_bytes_u64;
use crate::codec::bincode_decode_u64;
use crate::codec::bincode_decode_usize;
use crate::codec::bincode_encode_bytes_u64;
use crate::codec::bincode_encode_u64;
use crate::codec::bincode_encode_usize;
use crate::codec::Codec;
use crate::error::StdError;
use crate::storage::StaticKey;

verus! {

/// The singleton configuration record.
#[derive(Clone, Debug, PartialEq)]
pub struct Config {
    pub max_size: usize,
}

/// The singleton aggregate-state record.
#[derive(Clone, Debug, PartialEq)]
pub struct State {
    pub reminder_count: u64,
}

/// A per-identifier record.
#[derive(Clone, Debug, PartialEq)]
pub struct Reminder {
    pub content: Vec<u8>,
    pub timestamp: u64,
}

impl View for Config {
    type V = Config;

    open spec fn view(&self) -> Config {
        *self
    }
}

impl View for State {
    type V = State;

    open spec fn view(&self) -> State {
        *self
    }
}

/// The abstract content of a `Reminder`.
pub struct ReminderView {
    pub content: Seq<u8>,
    pub timestamp: u64,
}

impl View for Reminder {
    type V = ReminderView;

    open spec fn view(&self) -> ReminderView {
        ReminderView { content: self.content@, timestamp: self.timestamp }
    }
}

impl Codec for Config {
    open spec fn enc_ok_of(v: Config) -> bool {
        true
    }

    open spec fn enc_of(v: Config) -> Seq<u8> {
        bin_enc_usize(v.max_size)
    }

    fn encode(&self) -> (r: Result<Vec<u8>, StdError>) {
        match bincode_encode_usize(self.max_size) {
            Ok(b) => Ok(b),
            Err(msg) => Err(StdError::SerializeErr { source: "Config".to_string(), msg }),
        }
    }

    fn decode(data: &[u8]) -> (r: Result<Config, StdError>) {
        match bincode_decode_usize(data) {
            Ok(max_size) => Ok(Config { max_size }),
            Err(msg) => Err(StdError::SerializeErr { source: "Config".to_string(), msg }),
        }
    }
}

impl Codec for State {
    open spec fn enc_ok_of(v: State) -> bool {
        true
    }

    open spec fn enc_of(v: State) -> Seq<u8> {
        bin_enc_u64(v.reminder_count)
    }

    fn encode(&self) -> (r: Result<Vec<u8>, StdError>) {
        match bincode_encode_u64(self.reminder_count) {
            Ok(b) => Ok(b),
            Err(msg) => Err(StdError::SerializeErr { source: "State".to_string(), msg }),
        }
    }

    fn decode(data: &[u8]) -> (r: Result<State, StdError>) {
        match bincode_decode_u64(data) {
            Ok(reminder_count) => Ok(State { reminder_count }),
            Err(msg) => Err(StdError::SerializeErr { source: "State".to_string(), msg }),
        }
    }
}

impl Codec for Reminder {
    open spec fn enc_ok_of(v: ReminderView) -> bool {
        true
    }

    open spec fn enc_of(v: ReminderView) -> Seq<u8> {
        bin_enc_bytes_u64(v.content, v.timestamp)
    }

    fn encode(&self) -> (r: Result<Vec<u8>, StdError>) {
        match bincode_encode_bytes_u64(&self.content, self.timestamp) {
            Ok(b) => Ok(b),
            Err(msg) => Err(StdError::SerializeErr { source: "Reminder".to_string(), msg }),
        }
    }

    fn decode(data: &[u8]) -> (r: Result<Reminder, StdError>) {
        match bincode_decode_bytes_u64(data) {
            Ok(p) => Ok(Reminder { content: p.0, timestamp: p.1 }),
            Err(msg) => Err(StdError::SerializeErr { source: "Reminder".to_string(), msg }),
        }
    }
}

impl StaticKey for Config {
    open spec fn spec_key() -> Seq<u8> {
        seq![99u8, 111u8, 110u8, 102u8, 105u8, 103u8]
    }

    fn key() -> (r: Vec<u8>) {
        let mut k: Vec<u8> = Vec::new();
        k.push(99);
        k.push(111);
        k.push(110);
        k.push(102);
        k.push(105);
        k.push(103);
        proof {
            assert(k@ =~= Self::spec_key());
        }
        k
    }
}

impl StaticKey for State {
    open spec fn spec_key() -> Seq<u8> {
        seq![115u8, 116u8, 97u8, 116u8, 101u8]
    }

    fn key() -> (r: Vec<u8>) {
        let mut k: Vec<u8> = Vec::new();
        k.push(115);
        k.push(116);
        k.push(97);
        k.push(116);
        k.push(101);
        proof {
            assert(k@ =~= Self::spec_key());
        }
        k
    }
}

} // verus!

