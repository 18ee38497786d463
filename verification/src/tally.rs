use vstd::prelude::*;

use crate::command::IpcServerCommand;
use crate::server::step_spec;
use crate::wire::{lemma_u64_le_injective, push_u64_le, read_u64_le, u64_le, Wire};

verus! {

// Frame layout of this command set, one tag byte then the payload:
//   Get        ->  [0]
//   Add(n)     ->  [1] ++ u64_le(n)
//   Append(b)  ->  [2] ++ u64_le(b.len()) ++ b

/// A small reference command set: it keeps a running total and a count of
/// appended bytes in the caller's context. It is the library's own
/// implementation of [`IpcServerCommand`], usable as-is by an embedding
/// application and by the test suite.
#[derive(Clone, Debug)]
pub enum TallyCommand {
    /// Read the running total; mutates nothing.
    Get,
    /// Add to the running total, wrapping on overflow, and return the new
    /// total.
    Add(u64),
    /// Record the arrival of a payload: the count of appended bytes grows by
    /// the payload's length, wrapping on overflow.
    Append(Vec<u8>),
}

/// The responses of [`TallyCommand`].
#[derive(Clone, Copy, Debug, PartialEq, Eq, Structural)]
pub enum TallyResponse {
    /// The running total after the command.
    Total(u64),
    /// A plain acknowledgement.
    Ack,
}

/// The caller-owned context [`TallyCommand`] processing works on.
#[derive(Clone, Copy, Debug, PartialEq, Eq, Structural)]
pub struct TallyContext {
    /// The running total.
    pub total: u64,
    /// How many payload bytes have been appended, wrapping on overflow.
    pub appended: u64,
}

impl Wire for TallyCommand {
    open spec fn wire(self) -> Seq<u8> {
        match self {
            TallyCommand::Get => seq![0u8],
            TallyCommand::Add(n) => seq![1u8] + u64_le(n),
            TallyCommand::Append(b) => seq![2u8] + u64_le(b@.len() as u64) + b@,
        }
    }

    fn encode(&self) -> (r: Vec<u8>) {
        let mut out: Vec<u8> = Vec::new();
        match self {
            TallyCommand::Get => {
                out.push(0u8);
                proof {
                    assert(out@ =~= self.wire());
                }
            },
            TallyCommand::Add(n) => {
                out.push(1u8);
                push_u64_le(&mut out, *n);
                proof {
                    assert(out@ =~= self.wire());
                }
            },
            TallyCommand::Append(b) => {
                out.push(2u8);
                push_u64_le(&mut out, b.len() as u64);
                let mut i: usize = 0;
                while i < b.len()
                    invariant
                        i <= b@.len(),
                        out@ == seq![2u8] + u64_le(b@.len() as u64) + b@.subrange(0, i as int),
                    decreases b@.len() - i,
                {
                    let byte = b[i];
                    out.push(byte);
                    i = i + 1;
                    proof {
                        assert(out@ =~= seq![2u8] + u64_le(b@.len() as u64) + b@.subrange(
                            0,
                            i as int,
                        ));
                    }
                }
                proof {
                    assert(b@.subrange(0, b@.len() as int) =~= b@);
                    assert(out@ =~= self.wire());
                }
            },
        }
        out
    }

    fn decode(buf: &[u8]) -> (r: Option<Self>) {
        if buf.len() == 0 {
            proof {
                assert forall|v: TallyCommand| v.wire() != buf@ by {
                    assert(v.wire().len() >= 1);
                }
            }
            return None;
        }
        let tag = buf[0];
        if tag == 0 {
            if buf.len() == 1 {
                proof {
                    assert(TallyCommand::Get.wire() =~= buf@);
                }
                Some(TallyCommand::Get)
            } else {
                proof {
                    assert forall|v: TallyCommand| v.wire() != buf@ by {
                        lemma_tag_and_length(v);
                    }
                }
                None
            }
        } else if tag == 1 {
            if buf.len() == 9 {
                let n = read_u64_le(buf, 1);
                proof {
                    assert(TallyCommand::Add(n).wire() =~= buf@);
                }
                Some(TallyCommand::Add(n))
            } else {
                proof {
                    assert forall|v: TallyCommand| v.wire() != buf@ by {
                        lemma_tag_and_length(v);
                    }
                }
                None
            }
        } else if tag == 2 {
            if buf.len() < 9 {
                proof {
                    assert forall|v: TallyCommand| v.wire() != buf@ by {
                        lemma_tag_and_length(v);
                    }
                }
                return None;
            }
            let stated = read_u64_le(buf, 1);
            if stated == (buf.len() - 9) as u64 {
                let mut payload: Vec<u8> = Vec::new();
                let mut i: usize = 9;
                while i < buf.len()
                    invariant
                        9 <= i <= buf@.len(),
                        payload@ == buf@.subrange(9, i as int),
                    decreases buf@.len() - i,
                {
                    let byte = buf[i];
                    payload.push(byte);
                    i = i + 1;
                    proof {
                        assert(payload@ =~= buf@.subrange(9, i as int));
                    }
                }
                proof {
                    assert(payload@.len() == buf@.len() - 9);
                    assert(u64_le(payload@.len() as u64) == buf@.subrange(1, 9));
                    assert(TallyCommand::Append(payload).wire() =~= buf@);
                }
                Some(TallyCommand::Append(payload))
            } else {
                proof {
                    assert forall|v: TallyCommand| v.wire() != buf@ by {
                        lemma_tag_and_length(v);
                        match v {
                            TallyCommand::Append(b) => {
                                if v.wire() == buf@ {
                                    assert(b@.len() == buf@.len() - 9);
                                    assert(v.wire().subrange(1, 9) =~= u64_le(b@.len() as u64));
                                    assert(u64_le(stated) == u64_le(b@.len() as u64));
                                    lemma_u64_le_injective(stated, b@.len() as u64);
                                    assert(false);
                                }
                            },
                            _ => {},
                        }
                    }
                }
                None
            }
        } else {
            proof {
                assert forall|v: TallyCommand| v.wire() != buf@ by {
                    lemma_tag_and_length(v);
                }
            }
            None
        }
    }
}

/// The tag byte and the frame length each variant of [`TallyCommand`] puts on
/// the wire.
proof fn lemma_tag_and_length(v: TallyCommand)
    ensures
        v.wire().len() >= 1,
        v matches TallyCommand::Get ==> v.wire()[0] == 0u8 && v.wire().len() == 1,
        v matches TallyCommand::Add(n) ==> v.wire()[0] == 1u8 && v.wire().len() == 9,
        v matches TallyCommand::Append(b) ==> v.wire()[0] == 2u8 && v.wire().len() == 9 + b@.len(),
{
}

impl Wire for TallyResponse {
    open spec fn wire(self) -> Seq<u8> {
        match self {
            TallyResponse::Total(n) => seq![0u8] + u64_le(n),
            TallyResponse::Ack => seq![1u8],
        }
    }

    fn encode(&self) -> (r: Vec<u8>) {
        let mut out: Vec<u8> = Vec::new();
        match self {
            TallyResponse::Total(n) => {
                out.push(0u8);
                push_u64_le(&mut out, *n);
            },
            TallyResponse::Ack => {
                out.push(1u8);
            },
        }
        proof {
            assert(out@ =~= self.wire());
        }
        out
    }

    fn decode(buf: &[u8]) -> (r: Option<Self>) {
        if buf.len() == 9 && buf[0] == 0 {
            let n = read_u64_le(buf, 1);
            proof {
                assert(TallyResponse::Total(n).wire() =~= buf@);
            }
            Some(TallyResponse::Total(n))
        } else if buf.len() == 1 && buf[0] == 1 {
            proof {
                assert(TallyResponse::Ack.wire() =~= buf@);
            }
            Some(TallyResponse::Ack)
        } else {
            proof {
                assert forall|v: TallyResponse| v.wire() != buf@ by {
                    match v {
                        TallyResponse::Total(n) => {
                            assert(v.wire()[0] == 0u8 && v.wire().len() == 9);
                        },
                        TallyResponse::Ack => {
                            assert(v.wire()[0] == 1u8 && v.wire().len() == 1);
                        },
                    }
                }
            }
            None
        }
    }
}

impl IpcServerCommand for TallyCommand {
    type Response = TallyResponse;

    type Context = TallyContext;

    open spec fn process_spec(self, context: TallyContext) -> (TallyResponse, TallyContext) {
        match self {
            TallyCommand::Get => (TallyResponse::Total(context.total), context),
            TallyCommand::Add(n) => {
                let t = vstd::wrapping::u64_specs::wrapping_add(context.total, n);
                (
                    TallyResponse::Total(t),
                    (TallyContext { total: t, appended: context.appended }),
                )
            },
            TallyCommand::Append(b) => (
                TallyResponse::Ack,
                (TallyContext {
                    total: context.total,
                    appended: vstd::wrapping::u64_specs::wrapping_add(
                        context.appended,
                        b@.len() as u64,
                    ),
                }),
            ),
        }
    }

    proof fn lemma_wire_determines_process(a: Self, b: Self, context: TallyContext) {
        lemma_tag_and_length(a);
        lemma_tag_and_length(b);
        match (a, b) {
            (TallyCommand::Get, TallyCommand::Get) => {},
            (TallyCommand::Add(x), TallyCommand::Add(y)) => {
                assert(a.wire().subrange(1, 9) =~= u64_le(x));
                assert(b.wire().subrange(1, 9) =~= u64_le(y));
                lemma_u64_le_injective(x, y);
            },
            (TallyCommand::Append(v), TallyCommand::Append(w)) => {
                assert(9 + v@.len() == 9 + w@.len());
            },
            (TallyCommand::Get, TallyCommand::Add(_))
            | (TallyCommand::Get, TallyCommand::Append(_))
            | (TallyCommand::Add(_), TallyCommand::Get)
            | (TallyCommand::Add(_), TallyCommand::Append(_))
            | (TallyCommand::Append(_), TallyCommand::Get)
            | (TallyCommand::Append(_), TallyCommand::Add(_)) => {
                assert(a.wire()[0] == b.wire()[0]);
                assert(false);
            },
        }
    }

    proof fn lemma_response_wire_injective(a: TallyResponse, b: TallyResponse) {
        match (a, b) {
            (TallyResponse::Total(x), TallyResponse::Total(y)) => {
                assert(a.wire().subrange(1, 9) =~= u64_le(x));
                assert(b.wire().subrange(1, 9) =~= u64_le(y));
                lemma_u64_le_injective(x, y);
            },
            (TallyResponse::Ack, TallyResponse::Ack) => {},
            (TallyResponse::Total(_), TallyResponse::Ack) => {
                assert(a.wire().len() == 9);
                assert(b.wire().len() == 1);
                assert(false);
            },
            (TallyResponse::Ack, TallyResponse::Total(_)) => {
                assert(a.wire().len() == 1);
                assert(b.wire().len() == 9);
                assert(false);
            },
        }
    }

    fn process(self, context: &mut TallyContext) -> (r: TallyResponse) {
        match self {
            TallyCommand::Get => TallyResponse::Total(context.total),
            TallyCommand::Add(n) => {
                let t = context.total.wrapping_add(n);
                context.total = t;
                TallyResponse::Total(t)
            },
            TallyCommand::Append(b) => {
                let grown = context.appended.wrapping_add(b.len() as u64);
                context.appended = grown;
                TallyResponse::Ack
            },
        }
    }
}

/// An oversized frame is never misread as a shorter valid command: a
/// [`TallyCommand`] frame longer than the read buffer, cut to the buffer's
/// length, decodes to no command at all, so the server's drain propagates a
/// decode error rather than silently accepting a different command.
///
/// The bound on the frame length holds of every command an embedding
/// application can build, since a frame materializes as bytes in memory.
pub proof fn lemma_truncation_rejected(c: TallyCommand, n: int, context: TallyContext)
    requires
        9 <= n,
        n < c.wire().len() <= u64::MAX,
    ensures
        forall|d: TallyCommand| d.wire() != c.wire().take(n),
        step_spec::<TallyCommand>(c.wire().take(n), context) is None,
{
    lemma_tag_and_length(c);
    let t = c.wire().take(n);
    match c {
        TallyCommand::Append(b) => {
            assert(t[0] == 2u8);
            assert(t.subrange(1, 9) =~= u64_le(b@.len() as u64));
            assert forall|d: TallyCommand| d.wire() != t by {
                lemma_tag_and_length(d);
                match d {
                    TallyCommand::Append(w) => {
                        if d.wire() == t {
                            assert(9 + w@.len() == n);
                            assert(d.wire().subrange(1, 9) =~= u64_le(w@.len() as u64));
                            assert(u64_le(w@.len() as u64) == u64_le(b@.len() as u64));
                            lemma_u64_le_injective(w@.len() as u64, b@.len() as u64);
                            assert(w@.len() as u64 == b@.len() as u64);
                            assert(w@.len() < b@.len() <= u64::MAX - 9);
                            assert(false);
                        }
                    },
                    _ => {},
                }
            }
        },
        _ => {
            assert(c.wire().len() <= 9);
            assert(false);
        },
    }
}

} // verus!
