use vstd::assert_by_contradiction;
use vstd::prelude::*;
use vstd::string::*;

use crate::helpers::CallbackMessageType;
use crate::numfmt::{
    all_digits, canonical_dec, dec_rep, dec_val, is_digit, lemma_canonical_roundtrip,
    lemma_dec_rep_canonical, lemma_dec_rep_val, lemma_dec_val_prefix_grows, u64_to_string,
};

verus! {

/// The payload carried by one rating button: which value the button stands
/// for, which axis it rates (1 importance, 2 evaluation), and which room the
/// rating belongs to. It travels to the messaging platform and back as a
/// small fixed-shape JSON string.
#[derive(Debug)]
pub struct CallbackData {
    pub idx: u8,
    pub typ: u8,
    pub room_id: String,
}

/// The mathematical value of a `CallbackData`.
pub ghost struct CallbackDataV {
    pub idx: u8,
    pub typ: u8,
    pub room_id: Seq<char>,
}

impl View for CallbackData {
    type V = CallbackDataV;

    open spec fn view(&self) -> CallbackDataV {
        CallbackDataV { idx: self.idx, typ: self.typ, room_id: self.room_id@ }
    }
}

/// The canonical wire form of a callback payload: the three fields in fixed
/// order, numbers in canonical decimal, the room id quoted verbatim.
pub open spec fn json_of(e: CallbackDataV) -> Seq<char> {
    "{\"idx\":"@ + dec_rep(e.idx as nat) + ",\"typ\":"@ + dec_rep(e.typ as nat)
        + ",\"room_id\":\""@ + e.room_id + "\"}"@
}

/// A payload whose room id can be quoted verbatim: it holds no quote
/// character. Generated join codes are alphanumeric, so they always qualify.
pub open spec fn clean(e: CallbackDataV) -> bool {
    forall|i: int| 0 <= i < e.room_id.len() ==> e.room_id[i] != '"'
}

/// Whether `s` is the canonical wire form of some clean payload.
pub open spec fn is_canonical_json(s: Seq<char>) -> bool {
    exists|e: CallbackDataV| clean(e) && s == json_of(e)
}

/// The regions of a canonical wire string: the five fixed pieces and the
/// three payload pieces sit at computable offsets, the digit runs are framed
/// by non-digits, and the room id is framed by the only quotes after it.
proof fn lemma_json_shape(e: CallbackDataV)
    ensures
        ({
            let l1 = dec_rep(e.idx as nat).len() as int;
            let l2 = dec_rep(e.typ as nat).len() as int;
            let rl = e.room_id.len() as int;
            let s = json_of(e);
            &&& l1 >= 1 && l2 >= 1
            &&& s.len() == 28 + l1 + l2 + rl
            &&& s.subrange(0, 7) == "{\"idx\":"@
            &&& s.subrange(7, 7 + l1) == dec_rep(e.idx as nat)
            &&& s.subrange(7 + l1, 14 + l1) == ",\"typ\":"@
            &&& s.subrange(14 + l1, 14 + l1 + l2) == dec_rep(e.typ as nat)
            &&& s.subrange(14 + l1 + l2, 26 + l1 + l2) == ",\"room_id\":\""@
            &&& s.subrange(26 + l1 + l2, 26 + l1 + l2 + rl) == e.room_id
            &&& s.subrange(26 + l1 + l2 + rl, 28 + l1 + l2 + rl) == "\"}"@
            &&& (forall|k: int| 7 <= k < 7 + l1 ==> is_digit(#[trigger] s[k]))
            &&& !is_digit(s[7 + l1])
            &&& (forall|k: int| 14 + l1 <= k < 14 + l1 + l2 ==> is_digit(#[trigger] s[k]))
            &&& !is_digit(s[14 + l1 + l2])
            &&& (clean(e) ==> forall|k: int|
                26 + l1 + l2 <= k < 26 + l1 + l2 + rl ==> s[k] != '"')
            &&& s[26 + l1 + l2 + rl] == '"'
            &&& s[27 + l1 + l2 + rl] == '}'
        }),
{
    reveal_strlit("{\"idx\":");
    reveal_strlit(",\"typ\":");
    reveal_strlit(",\"room_id\":\"");
    reveal_strlit("\"}");
    lemma_dec_rep_val(e.idx as nat);
    lemma_dec_rep_val(e.typ as nat);
    let l1 = dec_rep(e.idx as nat).len() as int;
    let l2 = dec_rep(e.typ as nat).len() as int;
    let rl = e.room_id.len() as int;
    let s = json_of(e);
    assert(s.subrange(0, 7) =~= "{\"idx\":"@);
    assert(s.subrange(7, 7 + l1) =~= dec_rep(e.idx as nat));
    assert(s.subrange(7 + l1, 14 + l1) =~= ",\"typ\":"@);
    assert(s.subrange(14 + l1, 14 + l1 + l2) =~= dec_rep(e.typ as nat));
    assert(s.subrange(14 + l1 + l2, 26 + l1 + l2) =~= ",\"room_id\":\""@);
    assert(s.subrange(26 + l1 + l2, 26 + l1 + l2 + rl) =~= e.room_id);
    assert(s.subrange(26 + l1 + l2 + rl, 28 + l1 + l2 + rl) =~= "\"}"@);
    assert forall|k: int| 7 <= k < 7 + l1 implies is_digit(#[trigger] s[k]) by {
        assert(s[k] == dec_rep(e.idx as nat)[k - 7]);
    }
    assert(s[7 + l1] == ',');
    assert forall|k: int| 14 + l1 <= k < 14 + l1 + l2 implies is_digit(#[trigger] s[k]) by {
        assert(s[k] == dec_rep(e.typ as nat)[k - 14 - l1]);
    }
    assert(s[14 + l1 + l2] == ',');
    if clean(e) {
        assert forall|k: int| 26 + l1 + l2 <= k < 26 + l1 + l2 + rl implies s[k] != '"' by {
            assert(s[k] == e.room_id[k - 26 - l1 - l2]);
        }
    }
    assert(s[26 + l1 + l2 + rl] == '"');
    assert(s[27 + l1 + l2 + rl] == '}');
}

impl CallbackData {
    /// Serialises the payload to its canonical wire form.
    pub fn to_json(&self) -> (r: String)
        ensures
            r@ == json_of(self@),
    {
        let mut r = String::from_str("{\"idx\":");
        let s1 = u64_to_string(self.idx as u64);
        r.append(s1.as_str());
        r.append(",\"typ\":");
        let s2 = u64_to_string(self.typ as u64);
        r.append(s2.as_str());
        r.append(",\"room_id\":\"");
        r.append(self.room_id.as_str());
        r.append("\"}");
        proof {
            assert(r@ =~= json_of(self@));
        }
        r
    }

    /// Parses a wire string. Succeeds exactly on the canonical wire form of
    /// a clean payload, and then returns that payload.
    pub fn parse(s: &str) -> (r: Option<CallbackData>)
        ensures
            r is Some <==> is_canonical_json(s@),
            r matches Some(d) ==> clean(d@) && s@ == json_of(d@),
    {
        proof {
            reveal_strlit("{\"idx\":");
            reveal_strlit(",\"typ\":");
            reveal_strlit(",\"room_id\":\"");
            reveal_strlit("\"}");
        }
        let n = s.unicode_len();
        if !has_at(s, 0, "{\"idx\":") {
            proof {
                assert_by_contradiction!(!is_canonical_json(s@), {
                    let e = choose|e: CallbackDataV| clean(e) && s@ == json_of(e);
                    lemma_json_shape(e);
                });
            }
            return None;
        }
        let j1 = scan_digits(s, 7);
        let idx_v = match parse_u8_run(s, 7, j1) {
            Some(v) => v,
            None => {
                proof {
                    assert_by_contradiction!(!is_canonical_json(s@), {
                        let e = choose|e: CallbackDataV| clean(e) && s@ == json_of(e);
                        lemma_json_shape(e);
                        lemma_align_idx(e, s@, j1 as int);
                        lemma_dec_rep_canonical(e.idx as nat);
                        lemma_dec_rep_val(e.idx as nat);
                    });
                }
                return None;
            },
        };
        if !has_at(s, j1, ",\"typ\":") {
            proof {
                assert_by_contradiction!(!is_canonical_json(s@), {
                    let e = choose|e: CallbackDataV| clean(e) && s@ == json_of(e);
                    lemma_json_shape(e);
                    lemma_align_idx(e, s@, j1 as int);
                });
            }
            return None;
        }
        let t0 = j1 + 7;
        let j2 = scan_digits(s, t0);
        let typ_v = match parse_u8_run(s, t0, j2) {
            Some(v) => v,
            None => {
                proof {
                    assert_by_contradiction!(!is_canonical_json(s@), {
                        let e = choose|e: CallbackDataV| clean(e) && s@ == json_of(e);
                        lemma_json_shape(e);
                        lemma_align_idx(e, s@, j1 as int);
                        lemma_align_typ(e, s@, j1 as int, j2 as int);
                        lemma_dec_rep_canonical(e.typ as nat);
                        lemma_dec_rep_val(e.typ as nat);
                    });
                }
                return None;
            },
        };
        if !has_at(s, j2, ",\"room_id\":\"") {
            proof {
                assert_by_contradiction!(!is_canonical_json(s@), {
                    let e = choose|e: CallbackDataV| clean(e) && s@ == json_of(e);
                    lemma_json_shape(e);
                    lemma_align_idx(e, s@, j1 as int);
                    lemma_align_typ(e, s@, j1 as int, j2 as int);
                });
            }
            return None;
        }
        let r0 = j2 + 12;
        let q = match scan_quote(s, r0) {
            Some(q) => q,
            None => {
                proof {
                    assert_by_contradiction!(!is_canonical_json(s@), {
                        let e = choose|e: CallbackDataV| clean(e) && s@ == json_of(e);
                        lemma_json_shape(e);
                        lemma_align_idx(e, s@, j1 as int);
                        lemma_align_typ(e, s@, j1 as int, j2 as int);
                    });
                }
                return None;
            },
        };
        if !has_at(s, q, "\"}") || q + 2 != n {
            proof {
                assert_by_contradiction!(!is_canonical_json(s@), {
                    let e = choose|e: CallbackDataV| clean(e) && s@ == json_of(e);
                    lemma_json_shape(e);
                    lemma_align_idx(e, s@, j1 as int);
                    lemma_align_typ(e, s@, j1 as int, j2 as int);
                    lemma_align_room(e, s@, j1 as int, j2 as int, q as int);
                });
            }
            return None;
        }
        let rid = s.substring_char(r0, q).to_owned();
        let d = CallbackData { idx: idx_v, typ: typ_v, room_id: rid };
        proof {
            assert(s@ =~= s@.subrange(0, 7) + s@.subrange(7, j1 as int) + s@.subrange(
                j1 as int,
                t0 as int,
            ) + s@.subrange(t0 as int, j2 as int) + s@.subrange(j2 as int, r0 as int)
                + s@.subrange(r0 as int, q as int) + s@.subrange(q as int, n as int));
            assert(s@ == json_of(d@));
        }
        Some(d)
    }
}

/// The wire form determines the payload: two clean payloads with the same
/// canonical wire string are equal. Together with `parse`'s contract this
/// makes the wire form a faithful round trip: parsing a payload's own
/// serialisation gives that payload back.
pub proof fn lemma_json_of_injective(a: CallbackDataV, b: CallbackDataV)
    requires
        clean(a),
        clean(b),
        json_of(a) == json_of(b),
    ensures
        a == b,
{
    let s = json_of(a);
    lemma_json_shape(a);
    lemma_json_shape(b);
    let l1 = dec_rep(a.idx as nat).len() as int;
    let l2 = dec_rep(a.typ as nat).len() as int;
    let rl = a.room_id.len() as int;
    lemma_align_idx(b, s, 7 + l1);
    assert(dec_rep(a.idx as nat) == dec_rep(b.idx as nat));
    lemma_dec_rep_val(a.idx as nat);
    lemma_dec_rep_val(b.idx as nat);
    assert(a.idx == b.idx);
    lemma_align_typ(b, s, 7 + l1, 14 + l1 + l2);
    assert(dec_rep(a.typ as nat) == dec_rep(b.typ as nat));
    lemma_dec_rep_val(a.typ as nat);
    lemma_dec_rep_val(b.typ as nat);
    assert(a.typ == b.typ);
    lemma_align_room(b, s, 7 + l1, 14 + l1 + l2, 26 + l1 + l2 + rl);
    assert(a.room_id == b.room_id);
}

/// In a canonical wire string, the scan for the first non-digit after the
/// fixed prefix stops exactly at the end of the idx digits.
proof fn lemma_align_idx(e: CallbackDataV, s: Seq<char>, j1: int)
    requires
        clean(e),
        s == json_of(e),
        7 <= j1 <= s.len(),
        forall|k: int| 7 <= k < j1 ==> is_digit(#[trigger] s[k]),
        j1 < s.len() ==> !is_digit(s[j1]),
    ensures
        j1 == 7 + dec_rep(e.idx as nat).len(),
        s.subrange(7, j1) == dec_rep(e.idx as nat),
{
    lemma_json_shape(e);
    let l1 = dec_rep(e.idx as nat).len() as int;
    if j1 < 7 + l1 {
        assert(is_digit(s[j1]));
        assert(j1 < s.len());
        assert(false);
    }
    if j1 > 7 + l1 {
        assert(is_digit(s[7 + l1]));
        assert(false);
    }
}

/// The scan for the first non-digit after the typ label stops exactly at
/// the end of the typ digits.
proof fn lemma_align_typ(e: CallbackDataV, s: Seq<char>, j1: int, j2: int)
    requires
        clean(e),
        s == json_of(e),
        j1 == 7 + dec_rep(e.idx as nat).len(),
        j1 + 7 <= j2 <= s.len(),
        forall|k: int| j1 + 7 <= k < j2 ==> is_digit(#[trigger] s[k]),
        j2 < s.len() ==> !is_digit(s[j2]),
    ensures
        j2 == 14 + dec_rep(e.idx as nat).len() + dec_rep(e.typ as nat).len(),
        s.subrange(j1 + 7, j2) == dec_rep(e.typ as nat),
{
    lemma_json_shape(e);
    let l1 = dec_rep(e.idx as nat).len() as int;
    let l2 = dec_rep(e.typ as nat).len() as int;
    if j2 < 14 + l1 + l2 {
        assert(is_digit(s[j2]));
        assert(j2 < s.len());
        assert(false);
    }
    if j2 > 14 + l1 + l2 {
        assert(is_digit(s[14 + l1 + l2]));
        assert(false);
    }
}

/// The scan for the first quote after the room label stops exactly at the
/// closing quote of the room id.
proof fn lemma_align_room(e: CallbackDataV, s: Seq<char>, j1: int, j2: int, q: int)
    requires
        clean(e),
        s == json_of(e),
        j1 == 7 + dec_rep(e.idx as nat).len(),
        j2 == 14 + dec_rep(e.idx as nat).len() + dec_rep(e.typ as nat).len(),
        j2 + 12 <= q < s.len(),
        s[q] == '"',
        forall|k: int| j2 + 12 <= k < q ==> s[k] != '"',
    ensures
        q == 26 + dec_rep(e.idx as nat).len() + dec_rep(e.typ as nat).len() + e.room_id.len(),
        s.subrange(j2 + 12, q) == e.room_id,
{
    lemma_json_shape(e);
    let l1 = dec_rep(e.idx as nat).len() as int;
    let l2 = dec_rep(e.typ as nat).len() as int;
    let rl = e.room_id.len() as int;
    if q < 26 + l1 + l2 + rl {
        assert(s[q] != '"');
        assert(false);
    }
    if q > 26 + l1 + l2 + rl {
        assert(s[26 + l1 + l2 + rl] == '"');
        assert(false);
    }
    assert(s.subrange(j2 + 12, q) == e.room_id);
}

/// Whether `pat` occurs in `s` starting at position `at`.
pub(crate) fn has_at(s: &str, at: usize, pat: &str) -> (r: bool)
    ensures
        r == (at + pat@.len() <= s@.len() && s@.subrange(at as int, at + pat@.len()) == pat@),
{
    let n = s.unicode_len();
    let m = pat.unicode_len();
    if at > n || m > n - at {
        return false;
    }
    let mut i: usize = 0;
    while i < m
        invariant
            at + m <= n,
            n == s@.len(),
            m == pat@.len(),
            0 <= i <= m,
            forall|j: int| 0 <= j < i ==> s@[at + j] == pat@[j],
        decreases m - i,
    {
        if s.get_char(at + i) != pat.get_char(i) {
            proof {
                assert(s@.subrange(at as int, at + pat@.len())[i as int] != pat@[i as int]);
            }
            return false;
        }
        i = i + 1;
    }
    proof {
        assert(s@.subrange(at as int, at + pat@.len()) =~= pat@);
    }
    true
}

/// The position of the first non-digit character at or after `from`.
fn scan_digits(s: &str, from: usize) -> (j: usize)
    requires
        from <= s@.len(),
    ensures
        from <= j <= s@.len(),
        forall|k: int| from <= k < j ==> is_digit(#[trigger] s@[k]),
        j < s@.len() ==> !is_digit(s@[j as int]),
{
    let n = s.unicode_len();
    let mut j = from;
    while j < n
        invariant
            from <= j <= n,
            n == s@.len(),
            forall|k: int| from <= k < j ==> is_digit(#[trigger] s@[k]),
        decreases n - j,
    {
        let c = s.get_char(j);
        if !('0' <= c && c <= '9') {
            return j;
        }
        j = j + 1;
    }
    j
}

/// The position of the first quote character at or after `from`, if any.
fn scan_quote(s: &str, from: usize) -> (r: Option<usize>)
    requires
        from <= s@.len(),
    ensures
        match r {
            Some(q) => from <= q < s@.len() && s@[q as int] == '"' && (forall|k: int|
                from <= k < q ==> s@[k] != '"'),
            None => forall|k: int| from <= k < s@.len() ==> s@[k] != '"',
        },
{
    let n = s.unicode_len();
    let mut j = from;
    while j < n
        invariant
            from <= j <= n,
            n == s@.len(),
            forall|k: int| from <= k < j ==> s@[k] != '"',
        decreases n - j,
    {
        let c = s.get_char(j);
        if c == '"' {
            return Some(j);
        }
        j = j + 1;
    }
    None
}

/// Parses the digit run `s[from..j]` as a canonical `u8`: fails on an empty
/// run, a leading zero, or a value above 255.
fn parse_u8_run(s: &str, from: usize, j: usize) -> (r: Option<u8>)
    requires
        from <= j <= s@.len(),
        forall|k: int| from <= k < j ==> is_digit(#[trigger] s@[k]),
    ensures
        r is Some <==> (from < j && canonical_dec(s@.subrange(from as int, j as int)) && dec_val(
            s@.subrange(from as int, j as int),
        ) <= 255),
        r matches Some(v) ==> v == dec_val(s@.subrange(from as int, j as int)) && dec_rep(
            v as nat,
        ) == s@.subrange(from as int, j as int),
{
    let ghost run = s@.subrange(from as int, j as int);
    if from == j {
        return None;
    }
    proof {
        assert(forall|k: int| 0 <= k < run.len() ==> run[k] == s@[from + k]);
        assert(all_digits(run));
    }
    let first = s.get_char(from);
    if first == '0' && j - from > 1 {
        proof {
            assert(run[0] == '0');
            assert(!canonical_dec(run));
        }
        return None;
    }
    proof {
        assert(canonical_dec(run));
    }
    let mut acc: u32 = 0;
    let mut i = from;
    while i < j
        invariant
            from <= i <= j <= s@.len(),
            forall|k: int| from <= k < j ==> is_digit(#[trigger] s@[k]),
            run == s@.subrange(from as int, j as int),
            acc == dec_val(s@.subrange(from as int, i as int)),
            acc <= 255,
        decreases j - i,
    {
        let c = s.get_char(i);
        let d: u32 = (c as u32) - ('0' as u32);
        proof {
            assert(s@.subrange(from as int, i + 1).drop_last() =~= s@.subrange(
                from as int,
                i as int,
            ));
            assert(s@.subrange(from as int, i + 1).last() == s@[i as int]);
        }
        let newacc = acc * 10 + d;
        if newacc > 255 {
            proof {
                assert(dec_val(s@.subrange(from as int, i + 1)) == newacc);
                lemma_dec_val_prefix_grows(run, i + 1 - from);
                assert(run.subrange(0, i + 1 - from) =~= s@.subrange(from as int, i + 1));
                assert(dec_val(run) >= newacc);
            }
            return None;
        }
        acc = newacc;
        i = i + 1;
    }
    proof {
        assert(s@.subrange(from as int, j as int) == run);
        lemma_canonical_roundtrip(run);
    }
    Some(acc as u8)
}

/// Maps the wire `typ` discriminant to a rating axis.
pub open spec fn spec_match_type(typ: u8) -> CallbackMessageType {
    if typ == 1 {
        CallbackMessageType::Importance
    } else if typ == 2 {
        CallbackMessageType::Evaluation
    } else {
        CallbackMessageType::Error
    }
}

impl CallbackData {
    /// Which rating axis this payload addresses.
    pub fn match_type(&self) -> (r: CallbackMessageType)
        ensures
            r == spec_match_type(self.typ),
    {
        if self.typ == 1 {
            CallbackMessageType::Importance
        } else if self.typ == 2 {
            CallbackMessageType::Evaluation
        } else {
            CallbackMessageType::Error
        }
    }
}

} // verus!
