use vstd::prelude::*;
use vstd::string::*;
use crate::error::OpenAIError;
use crate::json::{json_error_text, json_parses, json_value_of, parse_json};

verus! {

/// The marker that starts an event line: `data:`.
pub open spec fn data_prefix() -> Seq<u8> {
    seq![100u8, 97u8, 116u8, 97u8, 58u8]
}

/// The payload that ends the stream: `[DONE]`.
pub open spec fn sentinel() -> Seq<u8> {
    seq![91u8, 68u8, 79u8, 78u8, 69u8, 93u8]
}

pub open spec fn is_blank(b: u8) -> bool {
    b == 32u8 || b == 9u8 || b == 13u8
}

/// Index of the first non-blank byte of `s` at or after `i`.
pub open spec fn skip_lead(s: Seq<u8>, i: int) -> int
    decreases s.len() - i,
{
    if 0 <= i < s.len() && is_blank(s[i]) {
        skip_lead(s, i + 1)
    } else {
        i
    }
}

/// End of `s` once the blank bytes before `j`, down to `lo`, are dropped.
pub open spec fn skip_trail(s: Seq<u8>, lo: int, j: int) -> int
    decreases j - lo,
{
    if lo < j && j <= s.len() && is_blank(s[j - 1]) {
        skip_trail(s, lo, j - 1)
    } else {
        j
    }
}

/// `s` without leading and trailing blanks (space, tab, carriage return).
pub open spec fn trim(s: Seq<u8>) -> Seq<u8> {
    let lo = skip_lead(s, 0);
    s.subrange(lo, skip_trail(s, lo, s.len() as int))
}

/// Whether a line carries an event.
pub open spec fn is_event(line: Seq<u8>) -> bool {
    line.len() >= 5 && line.take(5) == data_prefix()
}

/// The trimmed payload of an event line.
pub open spec fn payload(line: Seq<u8>) -> Seq<u8> {
    trim(line.skip(5))
}

pub open spec fn is_done(line: Seq<u8>) -> bool {
    is_event(line) && payload(line) == sentinel()
}

/// What a stream of lines yields, read from the start: for each data event a
/// chunk `(true, payload)`; the first payload that does not parse gives
/// `(false, payload)` and ends the sequence; the sentinel ends it cleanly;
/// other lines yield nothing.
pub open spec fn outcome(lines: Seq<Seq<u8>>) -> Seq<(bool, Seq<u8>)>
    decreases lines.len(),
{
    if lines.len() == 0 {
        Seq::empty()
    } else {
        let l = lines[0];
        if !is_event(l) {
            outcome(lines.drop_first())
        } else if is_done(l) {
            Seq::empty()
        } else if json_parses(payload(l)) {
            seq![(true, payload(l))] + outcome(lines.drop_first())
        } else {
            seq![(false, payload(l))]
        }
    }
}

/// A line whose payload is a well-formed chunk.
pub open spec fn is_good_event(line: Seq<u8>) -> bool {
    is_event(line) && !is_done(line) && json_parses(payload(line))
}

/// Given `n` well-formed event lines and then the sentinel, a stream yields
/// exactly `n` chunks, the payloads in input order, and then ends, whatever
/// follows the sentinel.
pub proof fn lemma_stream_ends_at_sentinel(lines: Seq<Seq<u8>>, n: int)
    requires
        0 <= n < lines.len(),
        forall|i: int| 0 <= i < n ==> is_good_event(#[trigger] lines[i]),
        is_done(lines[n]),
    ensures
        outcome(lines).len() == n,
        forall|i: int| 0 <= i < n ==> #[trigger] outcome(lines)[i] == (true, payload(lines[i])),
    decreases n,
{
    if n > 0 {
        let rest = lines.drop_first();
        assert forall|i: int| 0 <= i < n - 1 implies is_good_event(#[trigger] rest[i]) by {
            assert(rest[i] == lines[i + 1]);
        }
        lemma_stream_ends_at_sentinel(rest, n - 1);
        assert(is_good_event(lines[0]));
        assert forall|i: int| 0 <= i < n implies #[trigger] outcome(lines)[i] == (true, payload(lines[i])) by {
            if i > 0 {
                assert(outcome(lines)[i] == outcome(rest)[i - 1]);
                assert(rest[i - 1] == lines[i]);
            }
        }
    }
}

/// Given a malformed event line at position `k` (counting from one) after
/// `k - 1` well-formed ones, a stream yields those `k - 1` chunks, one error,
/// and nothing beyond.
pub proof fn lemma_stream_stops_at_malformed(lines: Seq<Seq<u8>>, k: int)
    requires
        1 <= k <= lines.len(),
        forall|i: int| 0 <= i < k - 1 ==> is_good_event(#[trigger] lines[i]),
        is_event(lines[k - 1]),
        !is_done(lines[k - 1]),
        !json_parses(payload(lines[k - 1])),
    ensures
        outcome(lines).len() == k,
        forall|i: int| 0 <= i < k - 1 ==> #[trigger] outcome(lines)[i] == (true, payload(lines[i])),
        !outcome(lines)[k - 1].0,
    decreases k,
{
    if k > 1 {
        let rest = lines.drop_first();
        assert forall|i: int| 0 <= i < k - 2 implies is_good_event(#[trigger] rest[i]) by {
            assert(rest[i] == lines[i + 1]);
        }
        assert(rest[k - 2] == lines[k - 1]);
        lemma_stream_stops_at_malformed(rest, k - 1);
        assert(is_good_event(lines[0]));
        assert forall|i: int| 0 <= i < k - 1 implies #[trigger] outcome(lines)[i] == (true, payload(lines[i])) by {
            if i > 0 {
                assert(outcome(lines)[i] == outcome(rest)[i - 1]);
                assert(rest[i - 1] == lines[i]);
            }
        }
        assert(outcome(lines)[k - 1] == outcome(rest)[k - 2]);
    }
}

/// The state of a stream decoder.
#[derive(PartialEq, Eq, Structural, Clone, Copy)]
pub enum StreamState {
    /// Waiting for the next line.
    Open,
    /// The sentinel was read.
    Done,
    /// An error was yielded; nothing follows.
    Failed,
}

/// One element of a decoded stream.
pub enum StreamItem {
    /// A chunk: its payload text and the value read from it.
    Chunk { data: Vec<u8>, value: serde_json::Value },
    Error(OpenAIError),
}

/// The item is the chunk of payload `p`: its text, and the value serde_json
/// reads from it.
pub open spec fn is_chunk_of(it: StreamItem, p: Seq<u8>) -> bool {
    it matches StreamItem::Chunk { data, value } && data@ == p && value == json_value_of(p)
}

pub open spec fn newline_free(s: Seq<u8>) -> bool {
    forall|i: int| 0 <= i < s.len() ==> #[trigger] s[i] != 10u8
}

/// Bytes received and not yet handed out as lines: never more than one
/// line's worth once every complete line has been taken.
pub struct LineBuffer {
    pub backlog: Vec<u8>,
}

impl LineBuffer {
    pub fn new() -> (r: LineBuffer)
        ensures
            r.backlog@ == Seq::<u8>::empty(),
    {
        LineBuffer { backlog: Vec::new() }
    }

    /// Appends bytes received from the connection.
    pub fn push_bytes(&mut self, data: &[u8])
        ensures
            final(self).backlog@ == old(self).backlog@ + data@,
    {
        let mut i: usize = 0;
        while i < data.len()
            invariant
                i <= data@.len(),
                self.backlog@ == old(self).backlog@ + data@.take(i as int),
            decreases data@.len() - i,
        {
            self.backlog.push(data[i]);
            proof {
                assert(data@.take(i + 1) =~= data@.take(i as int).push(data@[i as int]));
            }
            i = i + 1;
        }
        proof {
            assert(data@.take(i as int) =~= data@);
        }
    }

    /// Takes the next complete line out of the backlog, without its newline,
    /// or `None` while no newline has arrived.
    pub fn next_line(&mut self) -> (r: Option<Vec<u8>>)
        ensures
            r is None ==> newline_free(old(self).backlog@) && final(self).backlog@ == old(self).backlog@,
            r matches Some(l) ==> newline_free(l@)
                && old(self).backlog@ == l@ + seq![10u8] + final(self).backlog@,
    {
        let mut k: usize = 0;
        while k < self.backlog.len() && self.backlog[k] != 10u8
            invariant
                k <= self.backlog@.len(),
                newline_free(self.backlog@.take(k as int)),
            decreases self.backlog@.len() - k,
        {
            proof {
                assert forall|i: int| 0 <= i < k + 1 implies #[trigger] self.backlog@.take(k + 1)[i] != 10u8 by {
                    if i < k {
                        assert(self.backlog@.take(k + 1)[i] == self.backlog@.take(k as int)[i]);
                    }
                }
            }
            k = k + 1;
        }
        if k == self.backlog.len() {
            proof {
                assert(self.backlog@.take(k as int) =~= self.backlog@);
            }
            return None;
        }
        let ghost whole = self.backlog@;
        let rest = self.backlog.split_off(k + 1);
        let mut line = self.backlog.split_off(0);
        self.backlog = rest;
        line.pop();
        proof {
            assert(line@ =~= whole.take(k as int));
            assert(whole =~= line@ + seq![10u8] + self.backlog@);
        }
        Some(line)
    }
}

/// Decodes a stream of lines into chunks, one line at a time.
pub struct StreamDecoder {
    pub state: StreamState,
}

fn starts_with_prefix(line: &[u8]) -> (r: bool)
    ensures
        r == is_event(line@),
{
    if line.len() < 5 {
        return false;
    }
    let r = line[0] == 100u8 && line[1] == 97u8 && line[2] == 116u8 && line[3] == 97u8
        && line[4] == 58u8;
    proof {
        if r {
            assert(line@.take(5) =~= data_prefix());
        } else {
            assert(line@.take(5) != data_prefix()) by {
                if line@.take(5) == data_prefix() {
                    assert(line@.take(5)[0] == line@[0]);
                    assert(line@.take(5)[1] == line@[1]);
                    assert(line@.take(5)[2] == line@[2]);
                    assert(line@.take(5)[3] == line@[3]);
                    assert(line@.take(5)[4] == line@[4]);
                }
            }
        }
    }
    r
}

fn blank(b: u8) -> (r: bool)
    ensures
        r == is_blank(b),
{
    b == 32u8 || b == 9u8 || b == 13u8
}

/// The trimmed payload of an event line, copied out.
fn event_payload(line: &[u8]) -> (r: Vec<u8>)
    requires
        line@.len() >= 5,
    ensures
        r@ == payload(line@),
{
    let ghost s = line@.skip(5);
    let mut i: usize = 5;
    while i < line.len() && blank(line[i])
        invariant
            5 <= i <= line@.len(),
            s == line@.skip(5),
            skip_lead(s, (i - 5) as int) == skip_lead(s, 0),
        decreases line@.len() - i,
    {
        i = i + 1;
    }
    let lo = i;
    let mut j: usize = line.len();
    while j > lo && blank(line[j - 1])
        invariant
            5 <= lo <= j <= line@.len(),
            s == line@.skip(5),
            skip_lead(s, 0) == lo - 5,
            skip_trail(s, lo - 5, j - 5) == skip_trail(s, lo - 5, s.len() as int),
        decreases j,
    {
        j = j - 1;
    }
    let mut r: Vec<u8> = Vec::new();
    let mut k: usize = lo;
    while k < j
        invariant
            lo <= k <= j <= line@.len(),
            r@ == line@.subrange(lo as int, k as int),
        decreases j - k,
    {
        r.push(line[k]);
        proof {
            assert(r@ =~= line@.subrange(lo as int, k + 1));
        }
        k = k + 1;
    }
    proof {
        assert(r@ =~= payload(line@));
    }
    r
}

fn is_sentinel(p: &Vec<u8>) -> (r: bool)
    ensures
        r == (p@ == sentinel()),
{
    let r = p.len() == 6 && p[0] == 91u8 && p[1] == 68u8 && p[2] == 79u8 && p[3] == 78u8
        && p[4] == 69u8 && p[5] == 93u8;
    proof {
        if r {
            assert(p@ =~= sentinel());
        } else if p@ == sentinel() {
            assert(sentinel()[0] == 91u8);
        }
    }
    r
}

impl StreamDecoder {
    pub fn new() -> (r: StreamDecoder)
        ensures
            r.state == StreamState::Open,
    {
        StreamDecoder { state: StreamState::Open }
    }

    /// Takes one line of the stream and yields what it produces, if anything.
    pub fn on_line(&mut self, line: &[u8]) -> (r: Option<StreamItem>)
        ensures
            old(self).state != StreamState::Open ==> (r is None && final(self).state == old(self).state),
            old(self).state == StreamState::Open ==> {
                if !is_event(line@) {
                    r is None && final(self).state == StreamState::Open
                } else if is_done(line@) {
                    r is None && final(self).state == StreamState::Done
                } else if json_parses(payload(line@)) {
                    (r matches Some(it) && is_chunk_of(it, payload(line@)))
                        && final(self).state == StreamState::Open
                } else {
                    (r matches Some(it) && it matches StreamItem::Error(e) && e is Deserialization)
                        && final(self).state == StreamState::Failed
                }
            },
    {
        if self.state != StreamState::Open {
            return None;
        }
        if !starts_with_prefix(line) {
            return None;
        }
        let data = event_payload(line);
        if is_sentinel(&data) {
            self.state = StreamState::Done;
            return None;
        }
        match parse_json(data.as_slice()) {
            Ok(value) => Some(StreamItem::Chunk { data, value }),
            Err(e) => {
                self.state = StreamState::Failed;
                Some(StreamItem::Error(OpenAIError::Deserialization(json_error_text(&e))))
            },
        }
    }

    /// Takes a failure of the connection while more bytes were awaited.
    pub fn on_transport_error(&mut self, message: String) -> (r: Option<StreamItem>)
        ensures
            old(self).state != StreamState::Open ==> (r is None && final(self).state == old(self).state),
            old(self).state == StreamState::Open ==> (final(self).state == StreamState::Failed
                && r == Some(StreamItem::Error(OpenAIError::Transport(message)))),
    {
        if self.state != StreamState::Open {
            return None;
        }
        self.state = StreamState::Failed;
        Some(StreamItem::Error(OpenAIError::Transport(message)))
    }

    /// Takes the consumer's report that the last chunk does not have the
    /// shape it expects: the stream ends with a `Deserialization` error that
    /// carries the report.
    pub fn reject_chunk(&mut self, message: String) -> (r: Option<StreamItem>)
        ensures
            old(self).state != StreamState::Open ==> (r is None && final(self).state == old(self).state),
            old(self).state == StreamState::Open ==> (final(self).state == StreamState::Failed
                && r == Some(StreamItem::Error(OpenAIError::Deserialization(message)))),
    {
        if self.state != StreamState::Open {
            return None;
        }
        self.state = StreamState::Failed;
        Some(StreamItem::Error(OpenAIError::Deserialization(message)))
    }
}

/// What the rest of a stream yields to a decoder in state `st`.
pub open spec fn outcome_from(st: StreamState, lines: Seq<Seq<u8>>) -> Seq<(bool, Seq<u8>)> {
    if st == StreamState::Open {
        outcome(lines)
    } else {
        Seq::empty()
    }
}

/// An item stands for an entry of an outcome: a chunk carries the payload,
/// an error is a deserialization error.
pub open spec fn item_matches(it: StreamItem, o: (bool, Seq<u8>)) -> bool {
    if o.0 {
        is_chunk_of(it, o.1)
    } else {
        it matches StreamItem::Error(e) && e is Deserialization
    }
}

/// A chunk sequence stands for an outcome, entry by entry.
pub open spec fn matches_outcome(v: Seq<StreamItem>, o: Seq<(bool, Seq<u8>)>) -> bool {
    &&& v.len() == o.len()
    &&& forall|i: int| 0 <= i < v.len() ==> item_matches(#[trigger] v[i], o[i])
}

/// Decodes a whole sequence of lines into the chunks that it yields, in order.
pub fn decode_lines(lines: &Vec<Vec<u8>>) -> (r: Vec<StreamItem>)
    ensures
        matches_outcome(r@, outcome(lines@.map_values(|l: Vec<u8>| l@))),
{
    let ghost all = lines@.map_values(|l: Vec<u8>| l@);
    let mut d = StreamDecoder::new();
    let mut out: Vec<StreamItem> = Vec::new();
    let mut i: usize = 0;
    proof {
        assert(all.skip(0) =~= all);
        assert(outcome(all).skip(0) =~= outcome(all));
    }
    while i < lines.len()
        invariant
            i <= lines@.len(),
            all == lines@.map_values(|l: Vec<u8>| l@),
            out@.len() + outcome_from(d.state, all.skip(i as int)).len() == outcome(all).len(),
            outcome_from(d.state, all.skip(i as int)) == outcome(all).skip(out@.len() as int),
            matches_outcome(out@, outcome(all).take(out@.len() as int)),
        decreases lines@.len() - i,
    {
        let ghost o = outcome(all);
        let ghost before = out@;
        let ghost st = d.state;
        let ghost rest = all.skip(i as int);
        proof {
            assert(rest[0] == lines@[i as int]@);
            assert(rest.drop_first() =~= all.skip(i + 1));
        }
        let it = d.on_line(lines[i].as_slice());
        let ghost itg = it;
        proof {
            assert(lines[i as int]@ == rest[0]);
        }
        match it {
            Some(x) => {
                out.push(x);
            },
            None => {},
        }
        proof {
            let n = before.len() as int;
            if out@.len() > before.len() {
                assert(st == StreamState::Open && is_event(rest[0]) && !is_done(rest[0]));
                assert(o.skip(n)[0] == o[n]);
                assert(o[n] == outcome(rest)[0]);
                assert(o.skip(n + 1) =~= o.skip(n).drop_first());
                if json_parses(payload(rest[0])) {
                    assert(outcome(rest).drop_first() =~= outcome(rest.drop_first()));
                } else {
                    assert(o.len() == n + 1);
                }
                assert(outcome(rest).len() >= 1);
                let t = o.take(n + 1);
                assert(t.len() == out@.len());
                assert forall|j: int| 0 <= j < out@.len() implies item_matches(#[trigger] out@[j], t[j]) by {
                    if j < n {
                        assert(out@[j] == before[j]);
                        assert(t[j] == o.take(n)[j]);
                    } else {
                        assert(itg == Some(out@[j]));
                        assert(t[j] == o[n]);
                    }
                }
                assert(matches_outcome(out@, t));
            } else {
                assert(out@ =~= before);
            }
        }
        i = i + 1;
    }
    proof {
        assert(all.skip(i as int) =~= Seq::<Seq<u8>>::empty());
        assert(outcome(all).take(out@.len() as int) =~= outcome(all));
    }
    out
}

} // verus!
