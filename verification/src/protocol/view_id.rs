use serde_json::Value;
use vstd::prelude::*;
use vstd::std_specs::convert::FromSpecImpl;
use vstd::string::StrSliceExecFns;
use vstd::string::StringExecFns;
use crate::json::{as_str, as_u64, from_string, spec_json, Json};
use crate::text::{push_char, str_eq};

verus! {

/// Identifier the peer assigns to an open view. On the wire it is the text
/// `view-id-` followed by the number.
#[derive(Clone, Copy, Debug, PartialEq, Eq, Hash, Structural)]
pub struct ViewId(pub usize);

impl From<usize> for ViewId {
    fn from(id: usize) -> (r: ViewId) {
        ViewId(id)
    }
}

impl FromSpecImpl<usize> for ViewId {
    open spec fn obeys_from_spec() -> bool {
        true
    }

    open spec fn from_spec(id: usize) -> ViewId {
        ViewId(id)
    }
}

/// Whether the character is one of the ten digits.
pub open spec fn spec_is_digit(c: char) -> bool {
    '0' <= c <= '9'
}

/// The number that a text of digits reads as, in base ten.
pub open spec fn spec_number(digits: Seq<char>) -> int
    decreases digits.len(),
{
    if digits.len() == 0 {
        0
    } else {
        spec_number(digits.drop_last()) * 10 + (digits.last() as int - '0' as int)
    }
}

/// The number of the view id that a text names: the text must be
/// `view-id-` followed by one or more digits that read as a number a
/// `usize` holds.
pub open spec fn spec_view_number(text: Seq<char>) -> Option<usize> {
    let head = "view-id-"@;
    if text.len() > head.len() && text.subrange(0, head.len() as int) == head && (forall|i: int|
        head.len() <= i < text.len() ==> spec_is_digit(#[trigger] text[i])) && spec_number(
        text.subrange(head.len() as int, text.len() as int),
    ) <= usize::MAX {
        Some(spec_number(text.subrange(head.len() as int, text.len() as int)) as usize)
    } else {
        None
    }
}

/// The view id that a document names: a string in the wire form, or the
/// bare number.
pub open spec fn spec_view_id(json: Json) -> Option<ViewId> {
    match json {
        Json::String(text) => match spec_view_number(text) {
            Some(n) => Some(ViewId(n)),
            None => None,
        },
        _ => match json.as_u64() {
            Some(n) => if n <= usize::MAX {
                Some(ViewId(n as usize))
            } else {
                None
            },
            None => None,
        },
    }
}

/// A text of digits reads as a number that is not negative, and as no
/// less than any of its beginnings.
proof fn lemma_number_grows(digits: Seq<char>, n: int)
    requires
        0 <= n <= digits.len(),
        forall|i: int| 0 <= i < digits.len() ==> spec_is_digit(#[trigger] digits[i]),
    ensures
        0 <= spec_number(digits.subrange(0, n)) <= spec_number(digits),
    decreases digits.len() - n,
{
    if n == digits.len() {
        assert(digits.subrange(0, n) =~= digits);
        lemma_number_positive(digits);
    } else {
        lemma_number_grows(digits, n + 1);
        assert(digits.subrange(0, n + 1).drop_last() =~= digits.subrange(0, n));
        assert(spec_is_digit(digits[n]));
        lemma_number_positive(digits.subrange(0, n));
    }
}

proof fn lemma_number_positive(digits: Seq<char>)
    requires
        forall|i: int| 0 <= i < digits.len() ==> spec_is_digit(#[trigger] digits[i]),
    ensures
        0 <= spec_number(digits),
    decreases digits.len(),
{
    if digits.len() > 0 {
        lemma_number_positive(digits.drop_last());
        assert(spec_is_digit(digits[digits.len() - 1]));
    }
}

/// The digit that stands for a number below ten.
pub open spec fn spec_digit(d: nat) -> char {
    if d == 0 {
        '0'
    } else if d == 1 {
        '1'
    } else if d == 2 {
        '2'
    } else if d == 3 {
        '3'
    } else if d == 4 {
        '4'
    } else if d == 5 {
        '5'
    } else if d == 6 {
        '6'
    } else if d == 7 {
        '7'
    } else if d == 8 {
        '8'
    } else {
        '9'
    }
}

/// The digits of a number in base ten, without leading zeros.
pub open spec fn spec_decimal(n: nat) -> Seq<char>
    decreases n,
{
    if n < 10 {
        seq![spec_digit(n)]
    } else {
        spec_decimal(n / 10).push(spec_digit(n % 10))
    }
}

/// The wire form of a view id: `view-id-` and the digits of its number.
pub open spec fn spec_wire(id: ViewId) -> Seq<char> {
    "view-id-"@ + spec_decimal(id.0 as nat)
}

/// The digits of a number are digits and read as the number.
pub proof fn lemma_decimal(n: nat)
    ensures
        spec_decimal(n).len() > 0,
        forall|i: int| 0 <= i < spec_decimal(n).len() ==> spec_is_digit(#[trigger] spec_decimal(n)[i]),
        spec_number(spec_decimal(n)) == n,
    decreases n,
{
    if n < 10 {
        assert(spec_decimal(n).drop_last() =~= Seq::<char>::empty());
        assert(spec_number(spec_decimal(n).drop_last()) == 0);
    } else {
        lemma_decimal(n / 10);
        assert(spec_decimal(n).drop_last() =~= spec_decimal(n / 10));
    }
}

/// A view id is read back from its wire form.
pub proof fn lemma_wire_parses(id: ViewId)
    ensures
        spec_view_number(spec_wire(id)) == Some(id.0),
        spec_view_id(Json::String(spec_wire(id))) == Some(id),
{
    reveal_strlit("view-id-");
    let head = "view-id-"@;
    let digits = spec_decimal(id.0 as nat);
    let text = spec_wire(id);
    lemma_decimal(id.0 as nat);
    assert(text.subrange(0, head.len() as int) =~= head);
    assert(text.subrange(head.len() as int, text.len() as int) =~= digits);
    assert forall|i: int| head.len() <= i < text.len() implies spec_is_digit(
        #[trigger] text[i],
    ) by {
        assert(text[i] == digits[i - head.len()]);
    }
}

/// The digit that stands for a number below ten.
fn digit(d: usize) -> (r: char)
    requires
        d < 10,
    ensures
        r == spec_digit(d as nat),
{
    if d == 0 {
        '0'
    } else if d == 1 {
        '1'
    } else if d == 2 {
        '2'
    } else if d == 3 {
        '3'
    } else if d == 4 {
        '4'
    } else if d == 5 {
        '5'
    } else if d == 6 {
        '6'
    } else if d == 7 {
        '7'
    } else if d == 8 {
        '8'
    } else {
        '9'
    }
}

/// Appends the digits of `n` in base ten to `text`.
fn push_decimal(text: &mut String, n: usize)
    ensures
        final(text)@ == old(text)@ + spec_decimal(n as nat),
    decreases n,
{
    if n >= 10 {
        push_decimal(text, n / 10);
    }
    push_char(text, digit(n % 10));
    assert(text@ =~= old(text)@ + spec_decimal(n as nat));
}

impl ViewId {
    /// The wire form of the id.
    pub fn wire(&self) -> (r: String)
        ensures
            r@ == spec_wire(*self),
    {
        let mut text = String::from_str("view-id-");
        push_decimal(&mut text, self.0);
        text
    }

    /// The JSON value of the id: its wire form as a string.
    pub fn to_value(&self) -> (r: Value)
        ensures
            spec_json(r) == Json::String(spec_wire(*self)),
    {
        from_string(self.wire())
    }

    /// Reads the number of a view id from its wire form.
    pub fn parse(text: &str) -> (r: Option<ViewId>)
        ensures
            r == match spec_view_number(text@) {
                Some(n) => Some(ViewId(n)),
                None => None,
            },
    {
        proof {
            reveal_strlit("view-id-");
        }
        let len: usize = text.unicode_len();
        if len <= 8 {
            return None;
        }
        if !str_eq(text.substring_char(0, 8), "view-id-") {
            return None;
        }
        let ghost digits = text@.subrange(8, len as int);
        let mut acc: usize = 0;
        let mut i: usize = 8;
        assert(digits.subrange(0, 0) =~= Seq::<char>::empty());
        while i < len
            invariant
                8 <= i <= len,
                len == text@.len(),
                "view-id-"@.len() == 8,
                text@.subrange(0, 8) == "view-id-"@,
                digits == text@.subrange(8, len as int),
                forall|k: int| 8 <= k < i ==> spec_is_digit(#[trigger] text@[k]),
                acc == spec_number(digits.subrange(0, i - 8)),
            decreases len - i,
        {
            let c: char = text.get_char(i);
            if !(c >= '0' && c <= '9') {
                assert(!spec_is_digit(text@[i as int]));
                return None;
            }
            let d: usize = (c as u32 - '0' as u32) as usize;
            proof {
                assert(digits.subrange(0, i - 8 + 1).drop_last() =~= digits.subrange(0, i - 8));
                assert(digits.subrange(0, i - 8 + 1).last() == c);
                if forall|k: int| 8 <= k < len ==> spec_is_digit(#[trigger] text@[k]) {
                    assert forall|k: int| 0 <= k < digits.len() implies spec_is_digit(
                        #[trigger] digits[k],
                    ) by {
                        assert(digits[k] == text@[k + 8]);
                    }
                    lemma_number_grows(digits, i - 8 + 1);
                }
            }
            if acc > (usize::MAX - d) / 10 {
                assert(acc * 10 + d > usize::MAX);
                assert(spec_number(digits.subrange(0, i - 8 + 1)) == acc * 10 + d);
                return None;
            }
            acc = acc * 10 + d;
            i += 1;
        }
        assert(digits.subrange(0, len - 8) =~= digits);
        Some(ViewId(acc))
    }

    /// Reads a view id from a JSON value: a string in the wire form, or
    /// the bare number.
    pub fn from_value(value: &Value) -> (r: Option<ViewId>)
        ensures
            r == spec_view_id(spec_json(*value)),
    {
        match as_str(value) {
            Some(text) => ViewId::parse(text),
            None => match as_u64(value) {
                Some(n) => if n <= usize::MAX as u64 {
                    Some(ViewId(n as usize))
                } else {
                    None
                },
                None => None,
            },
        }
    }
}

} // verus!
