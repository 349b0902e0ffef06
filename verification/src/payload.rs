//! The reply-payload format, as this library defines it: a flat JSON
//! object whose members are strings (with the usual escapes, including
//! `\uXXXX` for characters outside the surrogate range), unsigned decimal
//! integers, `null`, `true` or `false`. The known members are `role` and
//! `message` (a string, or `null` for absent), the required `created` (an
//! integer) and the required strings `id`, `action` and `model`; unknown
//! members are ignored, and a repeated member keeps its last value.
//! Nested values, negative numbers, fractions and exponents are outside
//! the format.
//!
//! [`payload_delta`] is the whole meaning of a payload text: every
//! contract of the decoder speaks of it, and the parser is proved equal
//! to it character by character.

use vstd::prelude::*;

use crate::model::ChatResponseMessage;
use crate::model::DeltaView;

verus! {

/// Where the scanner stands inside a payload text.
#[derive(Clone, Copy, Debug, PartialEq, Eq, Structural)]
pub enum PMode {
    /// Before the opening brace.
    Start,
    /// After the opening brace: a first key, or an empty object's end.
    PreKeyOrEnd,
    /// After a comma: a key must follow.
    PreKey,
    /// After a key: a colon must follow.
    PostKey,
    /// After the colon: a value must follow.
    PreVal,
    /// Inside a string (a key or a value).
    InString,
    /// After a backslash inside a string.
    StrEscape,
    /// Inside the four hex digits of a unicode escape.
    StrUnicode,
    /// Inside an integer value.
    InNumber,
    /// Inside the literal `null`.
    LitNull,
    /// Inside the literal `true`.
    LitTrue,
    /// Inside the literal `false`.
    LitFalse,
    /// After a complete member: a comma or the object's end.
    PostVal,
    /// After the closing brace.
    Closed,
    /// The text left the format; absorbing.
    Bad,
}

/// The view of the known members gathered so far.
#[verifier::ext_equal]
pub ghost struct AccView {
    pub role: Option<Seq<char>>,
    pub message: Option<Seq<char>>,
    pub created: Option<u64>,
    pub id: Option<Seq<char>>,
    pub action: Option<Seq<char>>,
    pub model: Option<Seq<char>>,
}

/// The view of the whole scanner state.
#[verifier::ext_equal]
pub ghost struct PView {
    pub mode: PMode,
    /// Whether the string being read is a key (else a value).
    pub in_key: bool,
    pub key: Seq<char>,
    pub sval: Seq<char>,
    pub num: u64,
    pub ucode: u32,
    pub udigits: u32,
    pub litpos: u32,
    pub acc: AccView,
}

/// Blank space between tokens.
pub open spec fn is_ws(c: char) -> bool {
    c == ' ' || c == '\t' || c == '\n' || c == '\r'
}

/// The value of a decimal digit.
pub open spec fn digit_val(c: char) -> Option<u32> {
    let n = c as u32;
    if 48 <= n && n <= 57 {
        Some((n - 48) as u32)
    } else {
        None
    }
}

/// The value of a hexadecimal digit.
pub open spec fn hex_val(c: char) -> Option<u32> {
    let n = c as u32;
    if 48 <= n && n <= 57 {
        Some((n - 48) as u32)
    } else if 97 <= n && n <= 102 {
        Some((n - 87) as u32)
    } else if 65 <= n && n <= 70 {
        Some((n - 55) as u32)
    } else {
        None
    }
}

/// The character a one-letter escape stands for.
pub open spec fn esc_char(c: char) -> Option<char> {
    if c == '"' {
        Some('"')
    } else if c == '\\' {
        Some('\\')
    } else if c == '/' {
        Some('/')
    } else if c == 'b' {
        Some('\u{8}')
    } else if c == 'f' {
        Some('\u{c}')
    } else if c == 'n' {
        Some('\n')
    } else if c == 'r' {
        Some('\r')
    } else if c == 't' {
        Some('\t')
    } else {
        None
    }
}

/// A member whose value is a string: the known string members take it,
/// `created` refuses it, unknown members ignore it.
pub open spec fn acc_with_str(a: AccView, key: Seq<char>, s: Seq<char>) -> Option<AccView> {
    if key == "role"@ {
        Some(AccView { role: Some(s), ..a })
    } else if key == "message"@ {
        Some(AccView { message: Some(s), ..a })
    } else if key == "created"@ {
        None
    } else if key == "id"@ {
        Some(AccView { id: Some(s), ..a })
    } else if key == "action"@ {
        Some(AccView { action: Some(s), ..a })
    } else if key == "model"@ {
        Some(AccView { model: Some(s), ..a })
    } else {
        Some(a)
    }
}

/// A member whose value is an integer: only `created` takes it.
pub open spec fn acc_with_num(a: AccView, key: Seq<char>, n: u64) -> Option<AccView> {
    if key == "created"@ {
        Some(AccView { created: Some(n), ..a })
    } else if key == "role"@ || key == "message"@ || key == "id"@ || key == "action"@ || key
        == "model"@ {
        None
    } else {
        Some(a)
    }
}

/// A member whose value is `null`: the optional members become absent,
/// the required ones refuse it.
pub open spec fn acc_with_null(a: AccView, key: Seq<char>) -> Option<AccView> {
    if key == "role"@ {
        Some(AccView { role: None, ..a })
    } else if key == "message"@ {
        Some(AccView { message: None, ..a })
    } else if key == "created"@ || key == "id"@ || key == "action"@ || key == "model"@ {
        None
    } else {
        Some(a)
    }
}

/// A member whose value is a boolean: every known member refuses it.
pub open spec fn acc_with_bool(a: AccView, key: Seq<char>) -> Option<AccView> {
    if key == "role"@ || key == "message"@ || key == "created"@ || key == "id"@ || key
        == "action"@ || key == "model"@ {
        None
    } else {
        Some(a)
    }
}

/// One member finished with a string value; the value buffer empties.
pub open spec fn finish_str(v: PView) -> PView {
    match acc_with_str(v.acc, v.key, v.sval) {
        Some(a) => PView { mode: PMode::PostVal, acc: a, sval: Seq::empty(), ..v },
        None => PView { mode: PMode::Bad, sval: Seq::empty(), ..v },
    }
}

/// One member finished with an integer value, continuing at `m`.
pub open spec fn finish_num(v: PView, m: PMode) -> PView {
    match acc_with_num(v.acc, v.key, v.num) {
        Some(a) => PView { mode: m, acc: a, ..v },
        None => PView { mode: PMode::Bad, ..v },
    }
}

/// The scanner, one character at a time.
pub open spec fn pstep(v: PView, c: char) -> PView {
    match v.mode {
        PMode::Start => if is_ws(c) {
            v
        } else if c == '{' {
            PView { mode: PMode::PreKeyOrEnd, ..v }
        } else {
            PView { mode: PMode::Bad, ..v }
        },
        PMode::PreKeyOrEnd => if is_ws(c) {
            v
        } else if c == '"' {
            PView { mode: PMode::InString, in_key: true, key: Seq::empty(), ..v }
        } else if c == '}' {
            PView { mode: PMode::Closed, ..v }
        } else {
            PView { mode: PMode::Bad, ..v }
        },
        PMode::PreKey => if is_ws(c) {
            v
        } else if c == '"' {
            PView { mode: PMode::InString, in_key: true, key: Seq::empty(), ..v }
        } else {
            PView { mode: PMode::Bad, ..v }
        },
        PMode::PostKey => if is_ws(c) {
            v
        } else if c == ':' {
            PView { mode: PMode::PreVal, ..v }
        } else {
            PView { mode: PMode::Bad, ..v }
        },
        PMode::PreVal => if is_ws(c) {
            v
        } else if c == '"' {
            PView { mode: PMode::InString, in_key: false, sval: Seq::empty(), ..v }
        } else if digit_val(c) is Some {
            PView { mode: PMode::InNumber, num: digit_val(c).unwrap() as u64, ..v }
        } else if c == 'n' {
            PView { mode: PMode::LitNull, litpos: 0, ..v }
        } else if c == 't' {
            PView { mode: PMode::LitTrue, litpos: 0, ..v }
        } else if c == 'f' {
            PView { mode: PMode::LitFalse, litpos: 0, ..v }
        } else {
            PView { mode: PMode::Bad, ..v }
        },
        PMode::InString => if c == '"' {
            if v.in_key {
                PView { mode: PMode::PostKey, ..v }
            } else {
                finish_str(v)
            }
        } else if c == '\\' {
            PView { mode: PMode::StrEscape, ..v }
        } else if (c as u32) < 32 {
            PView { mode: PMode::Bad, ..v }
        } else {
            if v.in_key {
                PView { key: v.key.push(c), ..v }
            } else {
                PView { sval: v.sval.push(c), ..v }
            }
        },
        PMode::StrEscape => if c == 'u' {
            PView { mode: PMode::StrUnicode, ucode: 0, udigits: 0, ..v }
        } else {
            match esc_char(c) {
                Some(e) => if v.in_key {
                    PView { mode: PMode::InString, key: v.key.push(e), ..v }
                } else {
                    PView { mode: PMode::InString, sval: v.sval.push(e), ..v }
                },
                None => PView { mode: PMode::Bad, ..v },
            }
        },
        PMode::StrUnicode => match hex_val(c) {
            None => PView { mode: PMode::Bad, ..v },
            Some(d) => {
                let u = if v.ucode <= 0xFFF {
                    (v.ucode * 16 + d) as u32
                } else {
                    0u32
                };
                if v.udigits < 3 {
                    PView { ucode: u, udigits: (v.udigits + 1) as u32, ..v }
                } else if u < 0xD800 || u > 0xDFFF {
                    if v.in_key {
                        PView { mode: PMode::InString, key: v.key.push(u as char), ..v }
                    } else {
                        PView { mode: PMode::InString, sval: v.sval.push(u as char), ..v }
                    }
                } else {
                    PView { mode: PMode::Bad, ..v }
                }
            },
        },
        PMode::InNumber => match digit_val(c) {
            Some(d) => if v.num > (0xFFFF_FFFF_FFFF_FFFFu64 - d as u64) / 10 {
                PView { mode: PMode::Bad, ..v }
            } else {
                PView { num: (v.num * 10 + d as u64) as u64, ..v }
            },
            None => if is_ws(c) {
                finish_num(v, PMode::PostVal)
            } else if c == ',' {
                finish_num(v, PMode::PreKey)
            } else if c == '}' {
                finish_num(v, PMode::Closed)
            } else {
                PView { mode: PMode::Bad, ..v }
            },
        },
        PMode::LitNull => if (v.litpos == 0 && c == 'u') || (v.litpos == 1 && c == 'l') {
            PView { litpos: (v.litpos + 1) as u32, ..v }
        } else if v.litpos == 2 && c == 'l' {
            match acc_with_null(v.acc, v.key) {
                Some(a) => PView { mode: PMode::PostVal, acc: a, ..v },
                None => PView { mode: PMode::Bad, ..v },
            }
        } else {
            PView { mode: PMode::Bad, ..v }
        },
        PMode::LitTrue => if (v.litpos == 0 && c == 'r') || (v.litpos == 1 && c == 'u') {
            PView { litpos: (v.litpos + 1) as u32, ..v }
        } else if v.litpos == 2 && c == 'e' {
            match acc_with_bool(v.acc, v.key) {
                Some(a) => PView { mode: PMode::PostVal, acc: a, ..v },
                None => PView { mode: PMode::Bad, ..v },
            }
        } else {
            PView { mode: PMode::Bad, ..v }
        },
        PMode::LitFalse => if (v.litpos == 0 && c == 'a') || (v.litpos == 1 && c == 'l') || (
        v.litpos == 2 && c == 's') {
            PView { litpos: (v.litpos + 1) as u32, ..v }
        } else if v.litpos == 3 && c == 'e' {
            match acc_with_bool(v.acc, v.key) {
                Some(a) => PView { mode: PMode::PostVal, acc: a, ..v },
                None => PView { mode: PMode::Bad, ..v },
            }
        } else {
            PView { mode: PMode::Bad, ..v }
        },
        PMode::PostVal => if is_ws(c) {
            v
        } else if c == ',' {
            PView { mode: PMode::PreKey, ..v }
        } else if c == '}' {
            PView { mode: PMode::Closed, ..v }
        } else {
            PView { mode: PMode::Bad, ..v }
        },
        PMode::Closed => if is_ws(c) {
            v
        } else {
            PView { mode: PMode::Bad, ..v }
        },
        PMode::Bad => v,
    }
}

/// The scanner before the first character.
pub open spec fn init_pview() -> PView {
    PView {
        mode: PMode::Start,
        in_key: false,
        key: Seq::empty(),
        sval: Seq::empty(),
        num: 0,
        ucode: 0,
        udigits: 0,
        litpos: 0,
        acc: AccView {
            role: None,
            message: None,
            created: None,
            id: None,
            action: None,
            model: None,
        },
    }
}

/// The scanner run over a whole text, first character first.
pub open spec fn prun(s: Seq<char>) -> PView
    decreases s.len(),
{
    if s.len() == 0 {
        init_pview()
    } else {
        pstep(prun(s.drop_last()), s.last())
    }
}

/// What a payload text means: the delta it describes, or nothing where
/// the text is outside the format or a required member is missing.
pub open spec fn payload_delta(s: Seq<char>) -> Option<DeltaView> {
    let v = prun(s);
    if v.mode is Closed && v.acc.created is Some && v.acc.id is Some && v.acc.action is Some
        && v.acc.model is Some {
        Some(
            DeltaView {
                role: v.acc.role,
                message: v.acc.message,
                created: v.acc.created.unwrap(),
                id: v.acc.id.unwrap(),
                action: v.acc.action.unwrap(),
                model: v.acc.model.unwrap(),
            },
        )
    } else {
        None
    }
}

/// Relies on `String::push`: appends exactly one character.
#[verifier::external_body]
fn push_char(s: &mut String, c: char)
    ensures
        final(s)@ == old(s)@.push(c),
{
    s.push(c);
}

/// Relies on `char::from_u32`: `Some` exactly on Unicode scalar values,
/// whose code is then the argument.
#[verifier::external_body]
fn char_from_u32(n: u32) -> (r: Option<char>)
    ensures
        r is Some <==> (n < 0xD800 || (0xE000 <= n && n <= 0x10FFFF)),
        r matches Some(c) ==> c == (n as char),
{
    char::from_u32(n)
}

/// The known members gathered so far.
struct AccState {
    role: Option<String>,
    message: Option<String>,
    created: Option<u64>,
    id: Option<String>,
    action: Option<String>,
    model: Option<String>,
}

impl View for AccState {
    type V = AccView;

    closed spec fn view(&self) -> AccView {
        AccView {
            role: match self.role {
                Some(ref x) => Some(x@),
                None => None,
            },
            message: match self.message {
                Some(ref x) => Some(x@),
                None => None,
            },
            created: self.created,
            id: match self.id {
                Some(ref x) => Some(x@),
                None => None,
            },
            action: match self.action {
                Some(ref x) => Some(x@),
                None => None,
            },
            model: match self.model {
                Some(ref x) => Some(x@),
                None => None,
            },
        }
    }
}

/// The scanner's state.
struct PState {
    mode: PMode,
    in_key: bool,
    key: String,
    sval: String,
    num: u64,
    ucode: u32,
    udigits: u32,
    litpos: u32,
    acc: AccState,
}

impl View for PState {
    type V = PView;

    closed spec fn view(&self) -> PView {
        PView {
            mode: self.mode,
            in_key: self.in_key,
            key: self.key@,
            sval: self.sval@,
            num: self.num,
            ucode: self.ucode,
            udigits: self.udigits,
            litpos: self.litpos,
            acc: self.acc@,
        }
    }
}

fn is_ws_exec(c: char) -> (r: bool)
    ensures
        r == is_ws(c),
{
    c == ' ' || c == '\t' || c == '\n' || c == '\r'
}

fn digit_val_exec(c: char) -> (r: Option<u32>)
    ensures
        r == digit_val(c),
{
    let n = c as u32;
    if 48 <= n && n <= 57 {
        Some(n - 48)
    } else {
        None
    }
}

fn hex_val_exec(c: char) -> (r: Option<u32>)
    ensures
        r == hex_val(c),
{
    let n = c as u32;
    if 48 <= n && n <= 57 {
        Some(n - 48)
    } else if 97 <= n && n <= 102 {
        Some(n - 87)
    } else if 65 <= n && n <= 70 {
        Some(n - 55)
    } else {
        None
    }
}

fn esc_char_exec(c: char) -> (r: Option<char>)
    ensures
        r == esc_char(c),
{
    if c == '"' {
        Some('"')
    } else if c == '\\' {
        Some('\\')
    } else if c == '/' {
        Some('/')
    } else if c == 'b' {
        Some('\u{8}')
    } else if c == 'f' {
        Some('\u{c}')
    } else if c == 'n' {
        Some('\n')
    } else if c == 'r' {
        Some('\r')
    } else if c == 't' {
        Some('\t')
    } else {
        None
    }
}

/// Stores a string value into the member the key names; `false` where
/// that member refuses a string.
fn set_str(acc: &mut AccState, key: &String, s: String) -> (ok: bool)
    ensures
        match acc_with_str(old(acc)@, key@, s@) {
            Some(a) => ok && final(acc)@ == a,
            None => !ok && *final(acc) == *old(acc),
        },
{
    if *key == String::from_str("role") {
        acc.role = Some(s);
        true
    } else if *key == String::from_str("message") {
        acc.message = Some(s);
        true
    } else if *key == String::from_str("created") {
        false
    } else if *key == String::from_str("id") {
        acc.id = Some(s);
        true
    } else if *key == String::from_str("action") {
        acc.action = Some(s);
        true
    } else if *key == String::from_str("model") {
        acc.model = Some(s);
        true
    } else {
        true
    }
}

/// Stores an integer value; `false` where the key's member refuses one.
fn set_num(acc: &mut AccState, key: &String, n: u64) -> (ok: bool)
    ensures
        match acc_with_num(old(acc)@, key@, n) {
            Some(a) => ok && final(acc)@ == a,
            None => !ok && *final(acc) == *old(acc),
        },
{
    if *key == String::from_str("created") {
        acc.created = Some(n);
        true
    } else if *key == String::from_str("role") || *key == String::from_str("message") || *key
        == String::from_str("id") || *key == String::from_str("action") || *key
        == String::from_str("model") {
        false
    } else {
        true
    }
}

/// Stores a `null` value; `false` where the key's member refuses it.
fn set_null(acc: &mut AccState, key: &String) -> (ok: bool)
    ensures
        match acc_with_null(old(acc)@, key@) {
            Some(a) => ok && final(acc)@ == a,
            None => !ok && *final(acc) == *old(acc),
        },
{
    if *key == String::from_str("role") {
        acc.role = None;
        true
    } else if *key == String::from_str("message") {
        acc.message = None;
        true
    } else if *key == String::from_str("created") || *key == String::from_str("id") || *key
        == String::from_str("action") || *key == String::from_str("model") {
        false
    } else {
        true
    }
}

/// Acknowledges a boolean value; `false` where the key names any known
/// member.
fn set_bool(acc: &mut AccState, key: &String) -> (ok: bool)
    ensures
        match acc_with_bool(old(acc)@, key@) {
            Some(a) => ok && final(acc)@ == a,
            None => !ok && *final(acc) == *old(acc),
        },
{
    if *key == String::from_str("role") || *key == String::from_str("message") || *key
        == String::from_str("created") || *key == String::from_str("id") || *key
        == String::from_str("action") || *key == String::from_str("model") {
        false
    } else {
        true
    }
}

/// One step of the scanner, proved equal to [`pstep`].
fn pstep_exec(st: &mut PState, c: char)
    ensures
        final(st)@ == pstep(old(st)@, c),
{
    match st.mode {
        PMode::Start => {
            if is_ws_exec(c) {
            } else if c == '{' {
                st.mode = PMode::PreKeyOrEnd;
            } else {
                st.mode = PMode::Bad;
            }
        },
        PMode::PreKeyOrEnd => {
            if is_ws_exec(c) {
            } else if c == '"' {
                st.mode = PMode::InString;
                st.in_key = true;
                st.key = String::new();
            } else if c == '}' {
                st.mode = PMode::Closed;
            } else {
                st.mode = PMode::Bad;
            }
        },
        PMode::PreKey => {
            if is_ws_exec(c) {
            } else if c == '"' {
                st.mode = PMode::InString;
                st.in_key = true;
                st.key = String::new();
            } else {
                st.mode = PMode::Bad;
            }
        },
        PMode::PostKey => {
            if is_ws_exec(c) {
            } else if c == ':' {
                st.mode = PMode::PreVal;
            } else {
                st.mode = PMode::Bad;
            }
        },
        PMode::PreVal => {
            if is_ws_exec(c) {
            } else if c == '"' {
                st.mode = PMode::InString;
                st.in_key = false;
                st.sval = String::new();
            } else {
                match digit_val_exec(c) {
                    Some(d) => {
                        st.mode = PMode::InNumber;
                        st.num = d as u64;
                    },
                    None => {
                        if c == 'n' {
                            st.mode = PMode::LitNull;
                            st.litpos = 0;
                        } else if c == 't' {
                            st.mode = PMode::LitTrue;
                            st.litpos = 0;
                        } else if c == 'f' {
                            st.mode = PMode::LitFalse;
                            st.litpos = 0;
                        } else {
                            st.mode = PMode::Bad;
                        }
                    },
                }
            }
        },
        PMode::InString => {
            if c == '"' {
                if st.in_key {
                    st.mode = PMode::PostKey;
                } else {
                    let sval = st.sval.clone();
                    st.sval = String::new();
                    if set_str(&mut st.acc, &st.key, sval) {
                        st.mode = PMode::PostVal;
                    } else {
                        st.mode = PMode::Bad;
                    }
                }
            } else if c == '\\' {
                st.mode = PMode::StrEscape;
            } else if (c as u32) < 32 {
                st.mode = PMode::Bad;
            } else {
                if st.in_key {
                    push_char(&mut st.key, c);
                } else {
                    push_char(&mut st.sval, c);
                }
            }
        },
        PMode::StrEscape => {
            if c == 'u' {
                st.mode = PMode::StrUnicode;
                st.ucode = 0;
                st.udigits = 0;
            } else {
                match esc_char_exec(c) {
                    Some(e) => {
                        st.mode = PMode::InString;
                        if st.in_key {
                            push_char(&mut st.key, e);
                        } else {
                            push_char(&mut st.sval, e);
                        }
                    },
                    None => {
                        st.mode = PMode::Bad;
                    },
                }
            }
        },
        PMode::StrUnicode => {
            match hex_val_exec(c) {
                None => {
                    st.mode = PMode::Bad;
                },
                Some(d) => {
                    let u: u32 = if st.ucode <= 0xFFF {
                        st.ucode * 16 + d
                    } else {
                        0
                    };
                    if st.udigits < 3 {
                        st.ucode = u;
                        st.udigits = st.udigits + 1;
                    } else if u < 0xD800 || u > 0xDFFF {
                        match char_from_u32(u) {
                            Some(e) => {
                                st.mode = PMode::InString;
                                if st.in_key {
                                    push_char(&mut st.key, e);
                                } else {
                                    push_char(&mut st.sval, e);
                                }
                            },
                            None => {
                                st.mode = PMode::Bad;
                            },
                        }
                    } else {
                        st.mode = PMode::Bad;
                    }
                },
            }
        },
        PMode::InNumber => {
            match digit_val_exec(c) {
                Some(d) => {
                    if st.num > (0xFFFF_FFFF_FFFF_FFFFu64 - d as u64) / 10 {
                        st.mode = PMode::Bad;
                    } else {
                        st.num = st.num * 10 + d as u64;
                    }
                },
                None => {
                    let next: Option<PMode> = if is_ws_exec(c) {
                        Some(PMode::PostVal)
                    } else if c == ',' {
                        Some(PMode::PreKey)
                    } else if c == '}' {
                        Some(PMode::Closed)
                    } else {
                        None
                    };
                    match next {
                        None => {
                            st.mode = PMode::Bad;
                        },
                        Some(m) => {
                            if set_num(&mut st.acc, &st.key, st.num) {
                                st.mode = m;
                            } else {
                                st.mode = PMode::Bad;
                            }
                        },
                    }
                },
            }
        },
        PMode::LitNull => {
            if (st.litpos == 0 && c == 'u') || (st.litpos == 1 && c == 'l') {
                st.litpos = st.litpos + 1;
            } else if st.litpos == 2 && c == 'l' {
                if set_null(&mut st.acc, &st.key) {
                    st.mode = PMode::PostVal;
                } else {
                    st.mode = PMode::Bad;
                }
            } else {
                st.mode = PMode::Bad;
            }
        },
        PMode::LitTrue => {
            if (st.litpos == 0 && c == 'r') || (st.litpos == 1 && c == 'u') {
                st.litpos = st.litpos + 1;
            } else if st.litpos == 2 && c == 'e' {
                if set_bool(&mut st.acc, &st.key) {
                    st.mode = PMode::PostVal;
                } else {
                    st.mode = PMode::Bad;
                }
            } else {
                st.mode = PMode::Bad;
            }
        },
        PMode::LitFalse => {
            if (st.litpos == 0 && c == 'a') || (st.litpos == 1 && c == 'l') || (st.litpos == 2
                && c == 's') {
                st.litpos = st.litpos + 1;
            } else if st.litpos == 3 && c == 'e' {
                if set_bool(&mut st.acc, &st.key) {
                    st.mode = PMode::PostVal;
                } else {
                    st.mode = PMode::Bad;
                }
            } else {
                st.mode = PMode::Bad;
            }
        },
        PMode::PostVal => {
            if is_ws_exec(c) {
            } else if c == ',' {
                st.mode = PMode::PreKey;
            } else if c == '}' {
                st.mode = PMode::Closed;
            } else {
                st.mode = PMode::Bad;
            }
        },
        PMode::Closed => {
            if is_ws_exec(c) {
            } else {
                st.mode = PMode::Bad;
            }
        },
        PMode::Bad => {},
    }
}

/// Reads one payload text: the delta it describes, or `None` exactly
/// where [`payload_delta`] gives none.
pub fn parse_payload(data: &str) -> (r: Option<ChatResponseMessage>)
    ensures
        match payload_delta(data@) {
            Some(d) => r matches Some(m) && m@ == d,
            None => r is None,
        },
{
    let n = data.unicode_len();
    let mut st = PState {
        mode: PMode::Start,
        in_key: false,
        key: String::new(),
        sval: String::new(),
        num: 0,
        ucode: 0,
        udigits: 0,
        litpos: 0,
        acc: AccState {
            role: None,
            message: None,
            created: None,
            id: None,
            action: None,
            model: None,
        },
    };
    proof {
        assert(data@.take(0) =~= Seq::<char>::empty());
        assert(st@ =~= init_pview());
    }
    let mut i: usize = 0;
    while i < n
        invariant
            i <= n,
            n == data@.len(),
            st@ == prun(data@.take(i as int)),
        decreases n - i,
    {
        let c = data.get_char(i);
        proof {
            assert(data@.take(i + 1).drop_last() =~= data@.take(i as int));
            assert(data@.take(i + 1).last() == c);
        }
        pstep_exec(&mut st, c);
        i = i + 1;
    }
    proof {
        assert(data@.take(n as int) =~= data@);
    }
    match st.mode {
        PMode::Closed => {
            match (st.acc.created, st.acc.id, st.acc.action, st.acc.model) {
                (Some(created), Some(id), Some(action), Some(model)) => {
                    Some(
                        ChatResponseMessage {
                            role: st.acc.role,
                            message: st.acc.message,
                            created,
                            id,
                            action,
                            model,
                        },
                    )
                },
                _ => None,
            }
        },
        _ => None,
    }
}

} // verus!
