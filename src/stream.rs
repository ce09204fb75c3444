//! Framing of a streamed answer: the body arrives in chunks of bytes that
//! need not end on a line boundary; each complete line of the form
//! `data: <payload>` carries one payload.
use vstd::prelude::*;
use crate::message::GroqError;

verus! {

/// An ASCII blank: space, tab, line feed, vertical tab, form feed or
/// carriage return.
pub open spec fn is_blank(b: u8) -> bool {
    b == 32 || (9 <= b && b <= 13)
}

/// `s` without its leading blanks.
pub open spec fn skip_blanks(s: Seq<u8>) -> Seq<u8>
    decreases s.len(),
{
    if s.len() > 0 && is_blank(s[0]) {
        skip_blanks(s.drop_first())
    } else {
        s
    }
}

/// The bytes of `data:`.
pub open spec fn data_tag() -> Seq<u8> {
    seq![100u8, 97u8, 116u8, 97u8, 58u8]
}

/// The payload of one line: what follows `data:` and the blanks after it;
/// `None` for a line that does not start with `data:`.
pub open spec fn payload_of(line: Seq<u8>) -> Option<Seq<u8>> {
    if line.len() >= 5 && line.take(5) == data_tag() {
        Some(skip_blanks(line.skip(5)))
    } else {
        None
    }
}

/// Reading the bytes `t` after the unfinished line `pending`: the payloads
/// of the lines that a line feed completes, in order, and the unfinished
/// line left at the end.
pub open spec fn scan(pending: Seq<u8>, t: Seq<u8>) -> (Seq<Seq<u8>>, Seq<u8>)
    decreases t.len(),
{
    if t.len() == 0 {
        (Seq::empty(), pending)
    } else if t[0] == 10 {
        let rest = scan(Seq::empty(), t.drop_first());
        (
            match payload_of(pending) {
                Some(p) => seq![p] + rest.0,
                None => rest.0,
            },
            rest.1,
        )
    } else {
        scan(pending.push(t[0]), t.drop_first())
    }
}

pub open spec fn byte_views(items: Seq<Vec<u8>>) -> Seq<Seq<u8>> {
    items.map_values(|v: Vec<u8>| v@)
}

/// Reading a body in two pieces gives the payloads of reading it whole, in
/// the same order, and leaves the same unfinished line: where the chunks of
/// a stream are cut does not matter.
pub proof fn lemma_scan_split(pending: Seq<u8>, t1: Seq<u8>, t2: Seq<u8>)
    ensures
        scan(pending, t1 + t2) == (
            scan(pending, t1).0 + scan(scan(pending, t1).1, t2).0,
            scan(scan(pending, t1).1, t2).1,
        ),
    decreases t1.len(),
{
    if t1.len() == 0 {
        assert(t1 + t2 =~= t2);
        assert(scan(pending, t1).0 + scan(pending, t2).0 =~= scan(pending, t2).0);
    } else {
        assert((t1 + t2).drop_first() =~= t1.drop_first() + t2);
        if t1[0] == 10 {
            lemma_scan_split(Seq::empty(), t1.drop_first(), t2);
            let a = scan(Seq::empty(), t1.drop_first());
            let b = scan(a.1, t2);
            match payload_of(pending) {
                Some(p) => {
                    assert(seq![p] + (a.0 + b.0) =~= (seq![p] + a.0) + b.0);
                },
                None => {},
            }
        } else {
            lemma_scan_split(pending.push(t1[0]), t1.drop_first(), t2);
        }
    }
}

/// A payload that a `data: ` line carries back unchanged: no line feed in
/// it, and no blank at its start.
pub open spec fn plain_payload(p: Seq<u8>) -> bool {
    &&& forall|i: int| 0 <= i < p.len() ==> #[trigger] p[i] != 10
    &&& (p.len() == 0 || !is_blank(p[0]))
}

/// The line `data: <p>` with its line feed.
pub open spec fn data_line(p: Seq<u8>) -> Seq<u8> {
    data_tag() + seq![32u8] + p + seq![10u8]
}

/// One `data: ` line for each payload, in order.
pub open spec fn data_lines(ps: Seq<Seq<u8>>) -> Seq<u8>
    decreases ps.len(),
{
    if ps.len() == 0 {
        Seq::empty()
    } else {
        data_lines(ps.drop_last()) + data_line(ps.last())
    }
}

proof fn lemma_scan_line(pending: Seq<u8>, p: Seq<u8>)
    requires
        forall|i: int| 0 <= i < p.len() ==> #[trigger] p[i] != 10,
    ensures
        scan(pending, p + seq![10u8]) == (
            match payload_of(pending + p) {
                Some(x) => seq![x],
                None => Seq::<Seq<u8>>::empty(),
            },
            Seq::<u8>::empty(),
        ),
    decreases p.len(),
{
    let t = p + seq![10u8];
    if p.len() == 0 {
        assert(t =~= seq![10u8]);
        assert(pending + p =~= pending);
        assert(t.drop_first() =~= Seq::<u8>::empty());
        assert(scan(Seq::empty(), Seq::<u8>::empty()) == (
            Seq::<Seq<u8>>::empty(),
            Seq::<u8>::empty(),
        ));
        assert(t[0] == 10);
        match payload_of(pending) {
            Some(x) => {
                assert(seq![x] + Seq::<Seq<u8>>::empty() =~= seq![x]);
            },
            None => {},
        }
    } else {
        assert(t[0] == p[0]);
        assert(t.drop_first() =~= p.drop_first() + seq![10u8]);
        assert(pending.push(p[0]) + p.drop_first() =~= pending + p);
        lemma_scan_line(pending.push(p[0]), p.drop_first());
    }
}

proof fn lemma_payload_of_data_line(p: Seq<u8>)
    requires
        plain_payload(p),
    ensures
        payload_of(data_tag() + seq![32u8] + p) == Some(p),
{
    let line = data_tag() + seq![32u8] + p;
    assert(line.take(5) =~= data_tag());
    assert(line.skip(5) =~= seq![32u8] + p);
    assert((seq![32u8] + p).drop_first() =~= p);
    assert((seq![32u8] + p)[0] == 32u8);
    assert(skip_blanks(p) == p);
    assert(skip_blanks(seq![32u8] + p) == skip_blanks(p));
}

/// A body made of one `data: ` line for each payload gives those payloads,
/// in the order the lines came, and leaves nothing unfinished.
pub proof fn lemma_data_lines_in_order(ps: Seq<Seq<u8>>)
    requires
        forall|i: int| 0 <= i < ps.len() ==> plain_payload(#[trigger] ps[i]),
    ensures
        scan(Seq::empty(), data_lines(ps)) == (ps, Seq::<u8>::empty()),
    decreases ps.len(),
{
    if ps.len() == 0 {
        assert(ps =~= Seq::<Seq<u8>>::empty());
    } else {
        let init = ps.drop_last();
        let p = ps.last();
        assert(plain_payload(ps[ps.len() - 1]));
        lemma_data_lines_in_order(init);
        lemma_scan_split(Seq::empty(), data_lines(init), data_line(p));
        let head = data_tag() + seq![32u8] + p;
        assert forall|i: int| 0 <= i < head.len() implies #[trigger] head[i] != 10 by {
            if i >= 6 {
                assert(head[i] == p[i - 6]);
            }
        }
        assert(data_line(p) == head + seq![10u8]);
        assert(Seq::<u8>::empty() + head =~= head);
        lemma_scan_line(Seq::empty(), head);
        lemma_payload_of_data_line(p);
        assert(init + seq![p] =~= ps);
    }
}

fn starts_with_data(line: &Vec<u8>) -> (r: bool)
    ensures
        r == (line@.len() >= 5 && line@.take(5) == data_tag()),
{
    if line.len() < 5 {
        return false;
    }
    let r = line[0] == 100 && line[1] == 97 && line[2] == 116 && line[3] == 97 && line[4] == 58;
    proof {
        if r {
            assert(line@.take(5) =~= data_tag());
        } else {
            assert(line@.take(5)[0] == line@[0] && line@.take(5)[1] == line@[1]);
            assert(line@.take(5)[2] == line@[2] && line@.take(5)[3] == line@[3]);
            assert(line@.take(5)[4] == line@[4]);
        }
    }
    r
}

/// The payload that a complete line carries, if any.
pub fn line_payload(line: &Vec<u8>) -> (r: Option<Vec<u8>>)
    ensures
        match r {
            Some(p) => payload_of(line@) == Some(p@),
            None => payload_of(line@) is None,
        },
{
    if !starts_with_data(line) {
        return None;
    }
    let mut i: usize = 5;
    while i < line.len() && (line[i] == 32 || (9 <= line[i] && line[i] <= 13))
        invariant
            5 <= i <= line@.len(),
            skip_blanks(line@.skip(5)) == skip_blanks(line@.skip(i as int)),
        decreases line@.len() - i,
    {
        proof {
            assert(line@.skip(i as int).drop_first() =~= line@.skip(i + 1));
        }
        i += 1;
    }
    let mut out: Vec<u8> = Vec::new();
    let start = i;
    while i < line.len()
        invariant
            start <= i <= line@.len(),
            out@ == line@.subrange(start as int, i as int),
        decreases line@.len() - i,
    {
        out.push(line[i]);
        proof {
            assert(out@ =~= line@.subrange(start as int, i + 1));
        }
        i += 1;
    }
    proof {
        assert(line@.skip(start as int) =~= line@.subrange(start as int, line@.len() as int));
        let s = line@.skip(start as int);
        assert(!(s.len() > 0 && is_blank(s[0])));
    }
    Some(out)
}

/// What the decoder is handed: a chunk of the body, a failed read, or the
/// end of the body.
#[derive(Debug)]
pub enum StreamInput {
    Chunk(Vec<u8>),
    Failed(String),
    End,
}

/// What the decoder hands back for one input: the payloads of the lines that
/// it completed, the error that ends the stream, and whether the stream is
/// over.
#[derive(Debug)]
pub struct StreamStep {
    pub payloads: Vec<Vec<u8>>,
    pub error: Option<GroqError>,
    pub done: bool,
}

/// Splits a streamed body into `data:` payloads, holding the unfinished last
/// line until the rest of it arrives.
#[derive(Debug)]
pub struct SseDecoder {
    pending: Vec<u8>,
    closed: bool,
}

impl SseDecoder {
    /// The unfinished line held back.
    pub closed spec fn pending(&self) -> Seq<u8> {
        self.pending@
    }

    /// Whether the stream has ended.
    pub closed spec fn is_closed(&self) -> bool {
        self.closed
    }

    /// A decoder at the start of a body.
    pub fn new() -> (r: Self)
        ensures
            r.pending() == Seq::<u8>::empty(),
            !r.is_closed(),
    {
        SseDecoder { pending: Vec::new(), closed: false }
    }

    /// Reads one chunk: returns the payloads of the lines that it completes,
    /// in order, and keeps the unfinished rest.
    pub fn feed(&mut self, chunk: &[u8]) -> (r: Vec<Vec<u8>>)
        ensures
            (byte_views(r@), final(self).pending()) == scan(old(self).pending(), chunk@),
            final(self).is_closed() == old(self).is_closed(),
    {
        let ghost start = self.pending@;
        let mut out: Vec<Vec<u8>> = Vec::new();
        let mut i: usize = 0;
        proof {
            assert(chunk@.skip(0) =~= chunk@);
            let first = scan(start, chunk@);
            assert(byte_views(out@) + first.0 =~= first.0);
        }
        while i < chunk.len()
            invariant
                i <= chunk@.len(),
                scan(start, chunk@) == (
                    byte_views(out@) + scan(self.pending@, chunk@.skip(i as int)).0,
                    scan(self.pending@, chunk@.skip(i as int)).1,
                ),
                self.closed == old(self).closed,
            decreases chunk@.len() - i,
        {
            let b = chunk[i];
            let ghost rest = chunk@.skip(i as int);
            proof {
                assert(rest.drop_first() =~= chunk@.skip(i + 1));
            }
            if b == 10 {
                let ghost tail = scan(Seq::empty(), chunk@.skip(i + 1));
                let ghost before = out@;
                match line_payload(&self.pending) {
                    Some(p) => {
                        out.push(p);
                        proof {
                            assert(byte_views(out@) =~= byte_views(before).push(p@));
                            assert(byte_views(out@) + tail.0 =~= byte_views(before) + (seq![p@]
                                + tail.0));
                        }
                    },
                    None => {},
                }
                self.pending = Vec::new();
            } else {
                self.pending.push(b);
            }
            i += 1;
        }
        proof {
            assert(chunk@.skip(i as int) =~= Seq::<u8>::empty());
            assert(byte_views(out@) + Seq::<Seq<u8>>::empty() =~= byte_views(out@));
        }
        out
    }

    /// Ends the body: the unfinished last line counts as complete.
    pub fn finish(&mut self) -> (r: Option<Vec<u8>>)
        ensures
            match r {
                Some(p) => payload_of(old(self).pending()) == Some(p@),
                None => payload_of(old(self).pending()) is None,
            },
            final(self).pending() == Seq::<u8>::empty(),
            final(self).is_closed() == old(self).is_closed(),
    {
        let r = line_payload(&self.pending);
        self.pending = Vec::new();
        r
    }

    /// Takes one input of the stream. A chunk gives the payloads it
    /// completes; a failed read gives `RequestFailed` with its description
    /// and ends the stream; the end of the body gives the payload of the
    /// unfinished last line, if it has one, and ends the stream. Once ended,
    /// the decoder gives nothing more.
    pub fn step(&mut self, input: StreamInput) -> (r: StreamStep)
        ensures
            old(self).is_closed() ==> r.payloads@.len() == 0 && r.error is None && r.done
                && final(self).is_closed(),
            !old(self).is_closed() ==> match input {
                StreamInput::Chunk(c) => {
                    &&& (byte_views(r.payloads@), final(self).pending()) == scan(
                        old(self).pending(),
                        c@,
                    )
                    &&& r.error is None
                    &&& !r.done
                    &&& !final(self).is_closed()
                },
                StreamInput::Failed(m) => {
                    &&& r.payloads@.len() == 0
                    &&& r.error matches Some(GroqError::RequestFailed(m2)) && m2 == m
                    &&& r.done
                    &&& final(self).is_closed()
                },
                StreamInput::End => {
                    &&& byte_views(r.payloads@) == match payload_of(old(self).pending()) {
                        Some(p) => seq![p],
                        None => Seq::<Seq<u8>>::empty(),
                    }
                    &&& r.error is None
                    &&& r.done
                    &&& final(self).is_closed()
                },
            },
    {
        if self.closed {
            return StreamStep { payloads: Vec::new(), error: None, done: true };
        }
        match input {
            StreamInput::Chunk(c) => {
                let payloads = self.feed(c.as_slice());
                StreamStep { payloads, error: None, done: false }
            },
            StreamInput::Failed(m) => {
                self.closed = true;
                StreamStep {
                    payloads: Vec::new(),
                    error: Some(GroqError::RequestFailed(m)),
                    done: true,
                }
            },
            StreamInput::End => {
                let mut payloads: Vec<Vec<u8>> = Vec::new();
                match self.finish() {
                    Some(p) => payloads.push(p),
                    None => {},
                }
                self.closed = true;
                proof {
                    assert(byte_views(payloads@) =~= match payload_of(old(self).pending()) {
                        Some(p) => seq![p],
                        None => Seq::<Seq<u8>>::empty(),
                    });
                }
                StreamStep { payloads, error: None, done: true }
            },
        }
    }
}

} // verus!
