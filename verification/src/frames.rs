//! The frame source: splits the raw bytes of a server-sent event stream
//! into `{event, data}` frames for the decoder. A record ends at a blank
//! line; its lines carry `data:` and `event:` fields; consecutive data
//! lines join with a line feed; bytes that are not well-formed UTF-8
//! surface as a bad-framing input.

use vstd::prelude::*;
use vstd::utf8::decode_utf8;
use vstd::utf8::valid_utf8;

use crate::decode::FrameInput;
use crate::decode::SseFrame;

verus! {

/// The length of the record separator at position `i`: a line feed
/// followed by a blank line end — `2` for LF LF, `3` for LF CR LF,
/// `0` where no separator starts.
pub open spec fn sep_len_at(b: Seq<u8>, i: int) -> int {
    if 0 <= i && i + 1 < b.len() && b[i] == 10 && b[i + 1] == 10 {
        2
    } else if 0 <= i && i + 2 < b.len() && b[i] == 10 && b[i + 1] == 13 && b[i + 2] == 10 {
        3
    } else {
        0
    }
}

/// The first position at or after `i` where a record separator starts.
pub open spec fn find_sep_from(b: Seq<u8>, i: int) -> Option<int>
    decreases b.len() - i,
    when 0 <= i <= b.len()
{
    if i >= b.len() {
        None
    } else if sep_len_at(b, i) > 0 {
        Some(i)
    } else {
        find_sep_from(b, i + 1)
    }
}

/// The lines of a record, split on line feeds; a record always has at
/// least one (possibly empty) line.
pub open spec fn lines_of(b: Seq<u8>) -> Seq<Seq<u8>>
    decreases b.len(),
{
    if b.len() == 0 {
        seq![Seq::empty()]
    } else if b[0] == 10 {
        seq![Seq::<u8>::empty()] + lines_of(b.drop_first())
    } else {
        let rest = lines_of(b.drop_first());
        seq![seq![b[0]] + rest[0]] + rest.skip(1)
    }
}

/// Splitting never yields an empty line list.
pub proof fn lemma_lines_of_nonempty(b: Seq<u8>)
    ensures
        lines_of(b).len() >= 1,
    decreases b.len(),
{
    if b.len() > 0 {
        lemma_lines_of_nonempty(b.drop_first());
    }
}

/// Appending one byte extends the last line, or — for a line feed —
/// opens a new empty line.
pub proof fn lemma_lines_of_push(b: Seq<u8>, x: u8)
    ensures
        x == 10 ==> lines_of(b.push(x)) == lines_of(b).push(Seq::empty()),
        x != 10 ==> lines_of(b.push(x)) == lines_of(b).update(
            lines_of(b).len() - 1,
            lines_of(b).last().push(x),
        ),
    decreases b.len(),
{
    reveal_with_fuel(lines_of, 3);
    lemma_lines_of_nonempty(b);
    if b.len() == 0 {
        if x == 10 {
            assert(b.push(x).drop_first() =~= Seq::<u8>::empty());
            assert(lines_of(b.push(x)) =~~= lines_of(b).push(Seq::empty()));
        } else {
            assert(b.push(x).drop_first() =~= Seq::<u8>::empty());
            assert(lines_of(b.push(x)) =~~= lines_of(b).update(
                lines_of(b).len() - 1,
                lines_of(b).last().push(x),
            ));
        }
    } else {
        lemma_lines_of_push(b.drop_first(), x);
        lemma_lines_of_nonempty(b.drop_first());
        assert(b.push(x).drop_first() =~= b.drop_first().push(x));
        if x == 10 {
            if b[0] == 10 {
                assert(lines_of(b.push(x)) =~~= lines_of(b).push(Seq::empty()));
            } else {
                assert(lines_of(b.push(x)) =~~= lines_of(b).push(Seq::empty()));
            }
        } else {
            if b[0] == 10 {
                assert(lines_of(b.push(x)) =~~= lines_of(b).update(
                    lines_of(b).len() - 1,
                    lines_of(b).last().push(x),
                ));
            } else {
                assert(lines_of(b.push(x)) =~~= lines_of(b).update(
                    lines_of(b).len() - 1,
                    lines_of(b).last().push(x),
                ));
            }
        }
    }
}

/// A line with its trailing carriage return, if any, removed.
pub open spec fn strip_cr(l: Seq<u8>) -> Seq<u8> {
    if l.len() > 0 && l.last() == 13 {
        l.drop_last()
    } else {
        l
    }
}

/// Whether a stripped line carries the given field name: the name's
/// bytes, then a colon.
pub open spec fn has_field(l: Seq<u8>, name: Seq<u8>) -> bool {
    l.len() > name.len() && l.take(name.len() as int) == name && l[name.len() as int] == 58
}

/// The value of a field line: everything after the colon, minus one
/// leading space.
pub open spec fn field_value(l: Seq<u8>, name: Seq<u8>) -> Seq<u8> {
    let rest = l.skip(name.len() + 1 as int);
    if rest.len() > 0 && rest[0] == 32 {
        rest.drop_first()
    } else {
        rest
    }
}

/// The bytes of the field name `data`.
pub open spec fn data_name() -> Seq<u8> {
    seq![100u8, 97u8, 116u8, 97u8]
}

/// The bytes of the field name `event`.
pub open spec fn event_name() -> Seq<u8> {
    seq![101u8, 118u8, 101u8, 110u8, 116u8]
}

/// The accumulated `event` and `data` field bytes after a run of lines:
/// the latest event name wins, and data lines join with a line feed.
pub open spec fn fields_of(lines: Seq<Seq<u8>>) -> (Option<Seq<u8>>, Option<Seq<u8>>)
    decreases lines.len(),
{
    if lines.len() == 0 {
        (None, None)
    } else {
        let acc = fields_of(lines.drop_last());
        let l = strip_cr(lines.last());
        if has_field(l, data_name()) {
            let v = field_value(l, data_name());
            (
                acc.0,
                match acc.1 {
                    None => Some(v),
                    Some(d) => Some(d + seq![10u8] + v),
                },
            )
        } else if has_field(l, event_name()) {
            (Some(field_value(l, event_name())), acc.1)
        } else {
            acc
        }
    }
}

/// The view of a frame input: bad framing, or the event and data texts.
#[verifier::ext_equal]
pub ghost struct FrameView {
    pub ok: bool,
    pub event: Option<Seq<char>>,
    pub data: Option<Seq<char>>,
}

/// The view of an exec frame input.
pub open spec fn frame_input_view(f: FrameInput) -> FrameView {
    match f {
        FrameInput::BadFraming => FrameView { ok: false, event: None, data: None },
        FrameInput::Frame(fr) => FrameView {
            ok: true,
            event: match fr.event {
                Some(e) => Some(e@),
                None => None,
            },
            data: match fr.data {
                Some(d) => Some(d@),
                None => None,
            },
        },
    }
}

/// The decoded text of an optional field, when its bytes decode.
pub open spec fn decoded_field(b: Option<Seq<u8>>) -> Option<Seq<char>> {
    match b {
        None => None,
        Some(b) => Some(decode_utf8(b)),
    }
}

/// Whether an optional field's bytes are well-formed UTF-8.
pub open spec fn field_decodes(b: Option<Seq<u8>>) -> bool {
    match b {
        None => true,
        Some(b) => valid_utf8(b),
    }
}

/// What one record of the stream means as a frame input: its fields,
/// decoded — or bad framing where a field is not well-formed UTF-8.
pub open spec fn frame_of_record(record: Seq<u8>) -> FrameView {
    let (e, d) = fields_of(lines_of(record));
    if field_decodes(e) && field_decodes(d) {
        FrameView { ok: true, event: decoded_field(e), data: decoded_field(d) }
    } else {
        FrameView { ok: false, event: None, data: None }
    }
}

/// Relies on `String::from_utf8`: it succeeds exactly on well-formed
/// UTF-8 and decodes the bytes to their characters.
#[verifier::external_body]
fn utf8_to_string(bytes: Vec<u8>) -> (r: Option<String>)
    ensures
        r is Some <==> valid_utf8(bytes@),
        r matches Some(s) ==> s@ == decode_utf8(bytes@),
{
    String::from_utf8(bytes).ok()
}

/// The bytes of an optional field buffer.
pub open spec fn opt_bytes(o: Option<Vec<u8>>) -> Option<Seq<u8>> {
    match o {
        Some(v) => Some(v@),
        None => None,
    }
}

/// A copy of `v[from..to]`.
fn copy_range(v: &Vec<u8>, from: usize, to: usize) -> (out: Vec<u8>)
    requires
        from <= to <= v@.len(),
    ensures
        out@ == v@.subrange(from as int, to as int),
{
    let mut out: Vec<u8> = Vec::new();
    let mut j: usize = from;
    while j < to
        invariant
            from <= j <= to <= v@.len(),
            out@ == v@.subrange(from as int, j as int),
        decreases to - j,
    {
        out.push(v[j]);
        j = j + 1;
        proof {
            assert(v@.subrange(from as int, j as int) =~= v@.subrange(from as int, j - 1).push(
                v@[j - 1],
            ));
        }
    }
    out
}

/// The line with a trailing carriage return removed, as a copy.
fn strip_cr_exec(l: &Vec<u8>) -> (out: Vec<u8>)
    ensures
        out@ == strip_cr(l@),
{
    let mut end = l.len();
    if end > 0 && l[end - 1] == 13 {
        end = end - 1;
    }
    let out = copy_range(l, 0, end);
    proof {
        assert(out@ =~= strip_cr(l@));
    }
    out
}

/// An incremental frame source over the raw bytes of the stream: absorb
/// chunks as they arrive, and take one complete frame at a time.
pub struct SseFramer {
    buffer: Vec<u8>,
}

impl SseFramer {
    /// The bytes absorbed and not yet taken as records.
    pub closed spec fn buf(&self) -> Seq<u8> {
        self.buffer@
    }

    /// A fresh frame source with nothing buffered.
    pub fn new() -> (r: SseFramer)
        ensures
            r.buf() == Seq::<u8>::empty(),
    {
        SseFramer { buffer: Vec::new() }
    }

    /// Absorbs one chunk of the byte stream.
    pub fn append_chunk(&mut self, chunk: &Vec<u8>)
        ensures
            final(self).buf() == old(self).buf() + chunk@,
    {
        let mut j: usize = 0;
        while j < chunk.len()
            invariant
                j <= chunk@.len(),
                self.buffer@ == old(self).buffer@ + chunk@.take(j as int),
            decreases chunk@.len() - j,
        {
            self.buffer.push(chunk[j]);
            j = j + 1;
            proof {
                assert(old(self).buffer@ + chunk@.take(j as int) =~= (old(self).buffer@
                    + chunk@.take(j - 1)).push(chunk@[j - 1]));
            }
        }
        proof {
            assert(old(self).buffer@ + chunk@.take(chunk@.len() as int) =~= old(self).buffer@
                + chunk@);
        }
    }

    /// The position and length of the first record separator in the
    /// buffer, if one is complete.
    fn find_separator(&self) -> (r: Option<(usize, usize)>)
        ensures
            match find_sep_from(self.buf(), 0) {
                Some(i) => r matches Some(p) && p.0 == i && p.1 == sep_len_at(self.buf(), i)
                    && sep_len_at(self.buf(), i) > 0,
                None => r is None,
            },
    {
        let n = self.buffer.len();
        let mut i: usize = 0;
        while i < n
            invariant
                i <= n,
                n == self.buffer@.len(),
                find_sep_from(self.buffer@, 0) == find_sep_from(self.buffer@, i as int),
            decreases n - i,
        {
            if self.buffer[i] == 10 {
                if i + 1 < n && self.buffer[i + 1] == 10 {
                    return Some((i, 2));
                }
                if n - i > 2 && self.buffer[i + 1] == 13 && self.buffer[i + 2] == 10 {
                    return Some((i, 3));
                }
            }
            i = i + 1;
        }
        None
    }

    /// Takes the first complete record out of the buffer: the bytes up
    /// to the first blank line, with the separator consumed. `None`
    /// while no record is complete.
    pub fn take_record(&mut self) -> (r: Option<Vec<u8>>)
        ensures
            match find_sep_from(old(self).buf(), 0) {
                Some(i) => r matches Some(rec) && rec@ == old(self).buf().take(i)
                    && final(self).buf() == old(self).buf().skip(
                    i + sep_len_at(old(self).buf(), i),
                ),
                None => r is None && *final(self) == *old(self),
            },
    {
        match self.find_separator() {
            None => None,
            Some((i, sep)) => {
                let n = self.buffer.len();
                proof {
                    assert(i + sep <= n);
                }
                let rec = copy_range(&self.buffer, 0, i);
                let rest = copy_range(&self.buffer, i + sep, n);
                self.buffer = rest;
                proof {
                    assert(rec@ =~= old(self).buf().take(i as int));
                    assert(self.buffer@ =~= old(self).buf().skip(
                        i + sep_len_at(old(self).buf(), i as int),
                    ));
                }
                Some(rec)
            },
        }
    }
}

/// Whether a stripped line carries the `data` field.
fn data_field(sl: &Vec<u8>) -> (r: bool)
    ensures
        r == has_field(sl@, data_name()),
{
    if sl.len() > 4 && sl[0] == 100 && sl[1] == 97 && sl[2] == 116 && sl[3] == 97 && sl[4] == 58 {
        proof {
            assert(sl@.take(4) =~= data_name());
        }
        true
    } else {
        proof {
            if has_field(sl@, data_name()) {
                assert(sl@.take(4)[0] == sl@[0]);
                assert(sl@.take(4)[1] == sl@[1]);
                assert(sl@.take(4)[2] == sl@[2]);
                assert(sl@.take(4)[3] == sl@[3]);
            }
        }
        false
    }
}

/// Whether a stripped line carries the `event` field.
fn event_field(sl: &Vec<u8>) -> (r: bool)
    ensures
        r == has_field(sl@, event_name()),
{
    if sl.len() > 5 && sl[0] == 101 && sl[1] == 118 && sl[2] == 101 && sl[3] == 110 && sl[4]
        == 116 && sl[5] == 58 {
        proof {
            assert(sl@.take(5) =~= event_name());
        }
        true
    } else {
        proof {
            if has_field(sl@, event_name()) {
                assert(sl@.take(5)[0] == sl@[0]);
                assert(sl@.take(5)[1] == sl@[1]);
                assert(sl@.take(5)[2] == sl@[2]);
                assert(sl@.take(5)[3] == sl@[3]);
                assert(sl@.take(5)[4] == sl@[4]);
            }
        }
        false
    }
}

/// The value of a field line whose name has the given length.
fn field_value_exec(sl: &Vec<u8>, name_len: usize) -> (out: Vec<u8>)
    requires
        name_len <= 8,
        sl@.len() > name_len,
    ensures
        name_len == 4 ==> out@ == field_value(sl@, data_name()),
        name_len == 5 ==> out@ == field_value(sl@, event_name()),
{
    let mut start = name_len + 1;
    if start < sl.len() && sl[start] == 32 {
        start = start + 1;
    }
    let out = copy_range(sl, start, sl.len());
    proof {
        assert(sl@.skip(name_len + 1 as int) =~= sl@.subrange(name_len + 1 as int, sl@.len() as int));
        if name_len == 4 {
            assert(out@ =~= field_value(sl@, data_name()));
        }
        if name_len == 5 {
            assert(out@ =~= field_value(sl@, event_name()));
        }
    }
    out
}

/// Joins one more data line onto the accumulated data bytes.
fn join_data(acc: Option<Vec<u8>>, value: Vec<u8>) -> (out: Vec<u8>)
    ensures
        out@ == match opt_bytes(acc) {
            None => value@,
            Some(d) => d + seq![10u8] + value@,
        },
{
    match acc {
        None => value,
        Some(d) => {
            let mut d = d;
            let ghost d0 = d@;
            d.push(10);
            proof {
                assert(d@ =~= d0 + seq![10u8] + value@.take(0));
            }
            let mut m: usize = 0;
            while m < value.len()
                invariant
                    m <= value@.len(),
                    d@ == d0 + seq![10u8] + value@.take(m as int),
                decreases value@.len() - m,
            {
                d.push(value[m]);
                m = m + 1;
                proof {
                    assert(d0 + seq![10u8] + value@.take(m as int) =~= (d0 + seq![10u8]
                        + value@.take(m - 1)).push(value@[m - 1]));
                }
            }
            proof {
                assert(value@.take(value@.len() as int) =~= value@);
            }
            d
        },
    }
}

/// Reads one record as a frame input: splits it into lines, folds the
/// `event` and `data` fields over them, and decodes the field bytes —
/// or reports bad framing where they are not well-formed UTF-8.
pub fn parse_record(record: &Vec<u8>) -> (r: FrameInput)
    ensures
        frame_input_view(r) == frame_of_record(record@),
{
    let mut lines: Vec<Vec<u8>> = Vec::new();
    let mut cur: Vec<u8> = Vec::new();
    let mut j: usize = 0;
    proof {
        assert(record@.take(0) =~= Seq::<u8>::empty());
        assert(lines_of(record@.take(0)) =~~= lines@.map_values(|l: Vec<u8>| l@).push(cur@));
    }
    while j < record.len()
        invariant
            j <= record@.len(),
            lines_of(record@.take(j as int)) == lines@.map_values(|l: Vec<u8>| l@).push(cur@),
        decreases record@.len() - j,
    {
        let ghost prefix = record@.take(j as int);
        let ghost pre_lines = lines@.map_values(|l: Vec<u8>| l@);
        let ghost pre_cur = cur@;
        let x = record[j];
        proof {
            lemma_lines_of_push(prefix, x);
            assert(record@.take(j + 1) =~= prefix.push(x));
            assert(lines_of(prefix).last() == pre_cur);
            assert(lines_of(prefix).len() == pre_lines.len() + 1);
        }
        if x == 10 {
            lines.push(cur);
            cur = Vec::new();
            proof {
                assert(lines_of(record@.take(j + 1)) =~~= lines@.map_values(|l: Vec<u8>| l@).push(
                    cur@,
                ));
            }
        } else {
            cur.push(x);
            proof {
                assert(lines_of(record@.take(j + 1)) =~~= lines@.map_values(|l: Vec<u8>| l@).push(
                    cur@,
                ));
            }
        }
        j = j + 1;
    }
    proof {
        assert(record@.take(record@.len() as int) =~= record@);
    }
    lines.push(cur);
    let ghost all_lines = lines_of(record@);
    proof {
        assert(all_lines =~~= lines@.map_values(|l: Vec<u8>| l@));
    }

    let mut event_b: Option<Vec<u8>> = None;
    let mut data_b: Option<Vec<u8>> = None;
    let mut k: usize = 0;
    proof {
        assert(all_lines.take(0) =~= Seq::<Seq<u8>>::empty());
    }
    while k < lines.len()
        invariant
            k <= lines@.len(),
            all_lines == lines@.map_values(|l: Vec<u8>| l@),
            all_lines.len() == lines@.len(),
            fields_of(all_lines.take(k as int)) == (opt_bytes(event_b), opt_bytes(data_b)),
        decreases lines@.len() - k,
    {
        proof {
            assert(all_lines.take(k + 1).drop_last() =~= all_lines.take(k as int));
            assert(all_lines.take(k + 1).last() == lines@[k as int]@);
        }
        let sl = strip_cr_exec(&lines[k]);
        if data_field(&sl) {
            let value = field_value_exec(&sl, 4);
            data_b = Some(join_data(data_b, value));
        } else if event_field(&sl) {
            let value = field_value_exec(&sl, 5);
            event_b = Some(value);
        }
        k = k + 1;
    }
    proof {
        assert(all_lines.take(all_lines.len() as int) =~= all_lines);
    }

    let event = match event_b {
        None => None,
        Some(b) => match utf8_to_string(b) {
            Some(s) => Some(s),
            None => {
                return FrameInput::BadFraming;
            },
        },
    };
    let data = match data_b {
        None => None,
        Some(b) => match utf8_to_string(b) {
            Some(s) => Some(s),
            None => {
                return FrameInput::BadFraming;
            },
        },
    };
    FrameInput::Frame(SseFrame { event, data })
}

/// Whether leftover bytes are only blank space: spaces, tabs, and line
/// ends.
pub open spec fn is_blank(b: Seq<u8>) -> bool {
    forall|i: int| 0 <= i < b.len() ==> b[i] == 32 || b[i] == 9 || b[i] == 10 || b[i] == 13
}

impl SseFramer {
    /// Takes the next complete frame out of the buffer, if one is.
    pub fn take_frame(&mut self) -> (r: Option<FrameInput>)
        ensures
            match find_sep_from(old(self).buf(), 0) {
                Some(i) => r matches Some(f) && frame_input_view(f) == frame_of_record(
                    old(self).buf().take(i),
                ) && final(self).buf() == old(self).buf().skip(
                    i + sep_len_at(old(self).buf(), i),
                ),
                None => r is None && *final(self) == *old(self),
            },
    {
        match self.take_record() {
            None => None,
            Some(rec) => Some(parse_record(&rec)),
        }
    }

    /// Ends the stream: a trailing record the stream closed without
    /// terminating still counts, while mere blank space does not.
    pub fn finish(self) -> (r: Option<FrameInput>)
        ensures
            is_blank(self.buf()) ==> r is None,
            !is_blank(self.buf()) ==> (r matches Some(f) && frame_input_view(f)
                == frame_of_record(self.buf())),
    {
        let n = self.buffer.len();
        let mut j: usize = 0;
        while j < n
            invariant
                j <= n,
                n == self.buffer@.len(),
                forall|i: int|
                    0 <= i < j ==> self.buffer@[i] == 32 || self.buffer@[i] == 9
                        || self.buffer@[i] == 10 || self.buffer@[i] == 13,
            decreases n - j,
        {
            let x = self.buffer[j];
            if !(x == 32 || x == 9 || x == 10 || x == 13) {
                return Some(parse_record(&self.buffer));
            }
            j = j + 1;
        }
        None
    }
}

} // verus!
