//! The structured value that a document is decoded from.

use vstd::prelude::*;
use vstd::utf8::encode_utf8_decode_utf8;

verus! {

/// A number, kept as its decimal text. The decoders read a number only
/// where the text writes one (see [`is_number`]); a value from the parser
/// always does.
#[derive(Debug, PartialEq, Eq)]
pub struct Number {
    pub text: String,
}

/// One named member of an object.
#[derive(Debug, PartialEq, Eq)]
pub struct Member {
    pub name: String,
    pub value: Json,
}

/// A structured value: the input of every decoder of this crate.
#[derive(Debug, PartialEq, Eq)]
pub enum Json {
    Null,
    Bool(bool),
    Number(Number),
    Text(String),
    Array(Vec<Json>),
    Object(Vec<Member>),
}

/// The mathematical value of a [`Json`].
pub enum JsonValue {
    Null,
    Bool(bool),
    Number(Seq<char>),
    Text(Seq<char>),
    Array(Seq<JsonValue>),
    Object(Seq<(Seq<char>, JsonValue)>),
}

impl DeepView for Number {
    type V = Seq<char>;

    open spec fn deep_view(&self) -> Seq<char> {
        self.text@
    }
}

/// The values of a sequence of items, in order.
pub open spec fn items_of(items: Seq<Json>) -> Seq<JsonValue>
    decreases items,
{
    Seq::new(
        items.len(),
        |i: int|
            if 0 <= i < items.len() {
                items[i].deep_view()
            } else {
                JsonValue::Null
            },
    )
}

/// The names and values of a sequence of members, in order.
pub open spec fn members_of(members: Seq<Member>) -> Seq<(Seq<char>, JsonValue)>
    decreases members,
{
    Seq::new(
        members.len(),
        |i: int|
            if 0 <= i < members.len() {
                (members[i].name@, members[i].value.deep_view())
            } else {
                (Seq::empty(), JsonValue::Null)
            },
    )
}

impl DeepView for Json {
    type V = JsonValue;

    open spec fn deep_view(&self) -> JsonValue
        decreases self,
    {
        match self {
            Json::Null => JsonValue::Null,
            Json::Bool(b) => JsonValue::Bool(*b),
            Json::Number(n) => JsonValue::Number(n.text@),
            Json::Text(s) => JsonValue::Text(s@),
            Json::Array(items) => JsonValue::Array(items_of(items@)),
            Json::Object(members) => JsonValue::Object(members_of(members@)),
        }
    }
}

/// The position of the last member of `members` that is named `name`, or
/// -1 where there is none.
pub open spec fn position(members: Seq<(Seq<char>, JsonValue)>, name: Seq<char>) -> int
    decreases members.len(),
{
    if members.len() == 0 {
        -1
    } else if members.last().0 == name {
        members.len() - 1
    } else {
        position(members.drop_last(), name)
    }
}

/// The value of the field `name`: that of the last member so named.
pub open spec fn lookup(members: Seq<(Seq<char>, JsonValue)>, name: Seq<char>) -> Option<
    JsonValue,
> {
    let i = position(members, name);
    if 0 <= i < members.len() {
        Some(members[i].1)
    } else {
        None
    }
}

/// `position` is -1 or the greatest index that holds the name.
pub proof fn lemma_position(members: Seq<(Seq<char>, JsonValue)>, name: Seq<char>)
    ensures
        -1 <= position(members, name) < members.len(),
        position(members, name) >= 0 ==> members[position(members, name)].0 == name,
        forall|k: int|
            position(members, name) < k < members.len() ==> (#[trigger] members[k]).0 != name,
    decreases members.len(),
{
    if members.len() > 0 && members.last().0 != name {
        lemma_position(members.drop_last(), name);
        assert forall|k: int| position(members, name) < k < members.len() implies (
        #[trigger] members[k]).0 != name by {
            if k < members.len() - 1 {
                assert(members.drop_last()[k] == members[k]);
            }
        }
    }
}

/// The place of the field `name` among `members`, if it is there.
pub fn locate(members: &Vec<Member>, name: &str) -> (r: Option<usize>)
    ensures
        match r {
            Some(i) => i == position(members_of(members@), name@),
            None => position(members_of(members@), name@) == -1,
        },
{
    let ghost all = members_of(members@);
    let mut i: usize = members.len();
    assert(all.take(i as int) =~= all);
    while i > 0
        invariant
            0 <= i <= members.len(),
            all == members_of(members@),
            position(all, name@) == position(all.take(i as int), name@),
        decreases i,
    {
        proof {
            assert(all.take(i as int).drop_last() =~= all.take(i - 1));
            assert(all.take(i as int).last() == all[i - 1]);
        }
        i = i - 1;
        if same_text(members[i].name.as_str(), name) {
            return Some(i);
        }
    }
    assert(all.take(0).len() == 0);
    None
}

/// The value of the field `name` among `members`, if it is there.
pub fn find<'a>(members: &'a Vec<Member>, name: &str) -> (r: Option<&'a Json>)
    ensures
        match r {
            Some(j) => lookup(members_of(members@), name@) == Some(j.deep_view()),
            None => lookup(members_of(members@), name@) is None,
        },
{
    proof {
        lemma_position(members_of(members@), name@);
    }
    match locate(members, name) {
        Some(i) => Some(&members[i].value),
        None => None,
    }
}

/// Whether every character of `s` is a decimal digit.
pub open spec fn all_digits(s: Seq<char>) -> bool {
    forall|i: int| 0 <= i < s.len() ==> '0' <= #[trigger] s[i] <= '9'
}

/// The number that a sequence of decimal digits writes.
pub open spec fn digits_value(s: Seq<char>) -> int
    decreases s.len(),
{
    if s.len() == 0 {
        0
    } else {
        digits_value(s.drop_last()) * 10 + (s.last() as int - '0' as int)
    }
}

/// The end of the run of decimal digits that starts at `from`.
pub open spec fn digits_end(s: Seq<char>, from: int) -> int
    decreases s.len() - from,
{
    if 0 <= from < s.len() && '0' <= s[from] <= '9' {
        digits_end(s, from + 1)
    } else {
        from
    }
}

/// Whether `text` writes a number: an optional minus sign; one or more
/// digits, the first of which is a zero only where it is the only one;
/// then, optionally, a point and one or more digits; then, optionally, an
/// exponent, which is `e` or `E`, an optional sign and one or more digits.
pub open spec fn is_number(text: Seq<char>) -> bool {
    let a: int = if text.len() > 0 && text[0] == '-' {
        1
    } else {
        0
    };
    let b = digits_end(text, a);
    let c = if b < text.len() && text[b] == '.' {
        digits_end(text, b + 1)
    } else {
        b
    };
    let d = if c < text.len() && (text[c] == 'e' || text[c] == 'E') {
        if c + 1 < text.len() && (text[c + 1] == '+' || text[c + 1] == '-') {
            c + 2
        } else {
            c + 1
        }
    } else {
        c
    };
    let e = if d > c {
        digits_end(text, d)
    } else {
        c
    };
    &&& b > a
    &&& (text[a] == '0' ==> b == a + 1)
    &&& (c > b ==> c > b + 1)
    &&& (d > c ==> e > d)
    &&& e == text.len()
}

/// The integer that `text` writes: `text` is a number without fraction and
/// without exponent, so an optional minus sign and then digits only.
pub open spec fn integer_of(text: Seq<char>) -> Option<int> {
    if !is_number(text) {
        None
    } else if text[0] == '-' && all_digits(text.skip(1)) {
        Some(-digits_value(text.skip(1)))
    } else if all_digits(text) {
        Some(digits_value(text))
    } else {
        None
    }
}

/// The 32-bit integer that `text` writes, if it writes an integer in range.
pub open spec fn i32_of(text: Seq<char>) -> Option<i32> {
    match integer_of(text) {
        Some(n) => if i32::MIN <= n <= i32::MAX {
            Some(n as i32)
        } else {
            None
        },
        None => None,
    }
}

/// A run of digits ends within the text, holds digits only, and ends where
/// the text ends or at a character that is no digit.
pub proof fn lemma_digits_end(s: Seq<char>, from: int)
    requires
        0 <= from <= s.len(),
    ensures
        from <= digits_end(s, from) <= s.len(),
        forall|k: int| from <= k < digits_end(s, from) ==> '0' <= #[trigger] s[k] <= '9',
        digits_end(s, from) < s.len() ==> !('0' <= s[digits_end(s, from)] <= '9'),
    decreases s.len() - from,
{
    if from < s.len() && '0' <= s[from] <= '9' {
        lemma_digits_end(s, from + 1);
    }
}

/// A number is written in ASCII.
pub proof fn lemma_number_is_ascii(text: Seq<char>)
    requires
        is_number(text),
    ensures
        vstd::utf8::is_ascii_chars(text),
{
    let a: int = if text.len() > 0 && text[0] == '-' {
        1
    } else {
        0
    };
    lemma_digits_end(text, a);
    let b = digits_end(text, a);
    if b < text.len() && text[b] == '.' {
        lemma_digits_end(text, b + 1);
    }
    let c = if b < text.len() && text[b] == '.' {
        digits_end(text, b + 1)
    } else {
        b
    };
    let d = if c < text.len() && (text[c] == 'e' || text[c] == 'E') {
        if c + 1 < text.len() && (text[c + 1] == '+' || text[c + 1] == '-') {
            c + 2
        } else {
            c + 1
        }
    } else {
        c
    };
    if d > c {
        lemma_digits_end(text, d);
    }
    assert forall|k: int| 0 <= k < text.len() implies '\0' <= #[trigger] text[k] <= '\u{7f}' by {
        if k < a {
        } else if k < b {
        } else if k < c {
            if k > b {
            }
        } else if k < d {
        } else {
        }
    }
}

/// The end of the run of decimal digits that starts at `from`.
fn digits_end_at(text: &str, from: usize) -> (r: usize)
    requires
        vstd::utf8::is_ascii_chars(text@),
        from <= text@.len(),
    ensures
        r == digits_end(text@, from as int),
        from <= r <= text@.len(),
{
    proof {
        vstd::utf8::is_ascii_chars_encode_utf8(text@);
        lemma_digits_end(text@, from as int);
    }
    let bytes = text.as_bytes();
    let mut i: usize = from;
    while i < bytes.len()
        invariant
            vstd::utf8::is_ascii_chars(text@),
            bytes@.len() == text@.len(),
            forall|k: int| 0 <= k < text@.len() ==> text@[k] as u8 == #[trigger] bytes@[k],
            from <= i <= text@.len(),
            digits_end(text@, from as int) == digits_end(text@, i as int),
        decreases bytes.len() - i,
    {
        let b = bytes[i];
        proof {
            assert('\0' <= text@[i as int] <= '\u{7f}');
            assert(text@[i as int] as int == b as int);
        }
        if b < 48u8 || b > 57u8 {
            return i;
        }
        i = i + 1;
    }
    i
}

/// The character at `i` of a text in ASCII, as a byte.
fn ascii_at(text: &str, i: usize) -> (b: u8)
    requires
        vstd::utf8::is_ascii_chars(text@),
        i < text@.len(),
    ensures
        b as int == text@[i as int] as int,
{
    let b = text.get_ascii(i);
    proof {
        assert('\0' <= text@[i as int] <= '\u{7f}');
    }
    b
}

impl Number {
    /// Whether the text writes a number.
    pub fn is_well_formed(&self) -> (r: bool)
        ensures
            r == is_number(self.text@),
    {
        let s = self.text.as_str();
        assert(s@ == self.text@);
        if !s.is_ascii() {
            proof {
                if is_number(s@) {
                    lemma_number_is_ascii(s@);
                }
            }
            return false;
        }
        proof {
            // in ASCII text, bytes and characters correspond one to one
            vstd::utf8::is_ascii_chars_encode_utf8(s@);
        }
        let n = s.as_bytes().len();
        if n == 0 {
            return false;
        }
        let a: usize = if ascii_at(s, 0) == 45u8 { 1 } else { 0 };
        let b = digits_end_at(s, a);
        if b == a {
            return false;
        }
        if ascii_at(s, a) == 48u8 && b != a + 1 {
            return false;
        }
        let c = if b < n && ascii_at(s, b) == 46u8 { digits_end_at(s, b + 1) } else { b };
        if c > b && c - b == 1 {
            return false;
        }
        let d = if c < n && (ascii_at(s, c) == 101u8 || ascii_at(s, c) == 69u8) {
            if c + 1 < n && (ascii_at(s, c + 1) == 43u8 || ascii_at(s, c + 1) == 45u8) {
                c + 2
            } else {
                c + 1
            }
        } else {
            c
        };
        let e = if d > c { digits_end_at(s, d) } else { c };
        if d > c && e == d {
            return false;
        }
        e == n
    }

    /// The number as a 32-bit integer, where its text writes one.
    pub fn to_i32(&self) -> (r: Option<i32>)
        ensures
            r == i32_of(self.text@),
    {
        if !self.is_well_formed() {
            return None;
        }
        let s = self.text.as_str();
        assert(s@ == self.text@);
        proof {
            // in ASCII text, bytes and characters correspond one to one
            lemma_number_is_ascii(s@);
            vstd::utf8::is_ascii_chars_encode_utf8(s@);
        }
        let bytes = s.as_bytes();
        let n = bytes.len();
        if n == 0 {
            return None;
        }
        let first = bytes[0];
        assert(s@[0] as int == first as int);
        let negative = first == 45u8;
        let start: usize = if negative { 1 } else { 0 };
        if start == n {
            return None;
        }
        let ghost digits = s@.skip(start as int);
        // `acc` follows the value of the digits read so far until that value
        // leaves the range of every 32-bit integer; from then on it only
        // records that it did.
        let mut acc: i64 = 0;
        let mut i: usize = start;
        while i < n
            invariant
                vstd::utf8::is_ascii_chars(s@),
                s@ == self.text@,
                n == s@.len(),
                bytes@.len() == s@.len(),
                forall|k: int| 0 <= k < s@.len() ==> s@[k] as u8 == #[trigger] bytes@[k],
                start <= i <= n,
                negative == (s@[0] == '-'),
                start == if negative { 1usize } else { 0usize },
                digits == s@.skip(start as int),
                all_digits(digits.take(i - start)),
                0 <= acc <= 21474836489,
                digits_value(digits.take(i - start)) <= 2147483648 ==> acc == digits_value(
                    digits.take(i - start),
                ),
                digits_value(digits.take(i - start)) > 2147483648 ==> acc > 2147483648,
            decreases n - i,
        {
            let b = bytes[i];
            proof {
                assert('\0' <= s@[i as int] <= '\u{7f}');
                assert(s@[i as int] as int == b as int);
                assert(digits[i - start] == s@[i as int]);
                assert(digits.take(i - start + 1).drop_last() =~= digits.take(i - start));
                assert(digits.take(i - start + 1).last() == s@[i as int]);
            }
            if b < 48u8 || b > 57u8 {
                proof {
                    assert(!('0' <= s@[i as int] <= '9'));
                    if negative {
                        assert(s@.skip(1)[i - 1] == s@[i as int]);
                    }
                }
                return None;
            }
            if acc <= 2147483648 {
                acc = acc * 10 + (b - 48u8) as i64;
            }
            i = i + 1;
        }
        proof {
            assert(digits.take(n - start) =~= digits);
            if !negative {
                assert(digits =~= s@);
            }
        }
        if acc > 2147483648 {
            None
        } else if negative {
            Some((0 - acc) as i32)
        } else if acc == 2147483648 {
            None
        } else {
            Some(acc as i32)
        }
    }

    /// A copy of the number.
    pub fn copy(&self) -> (r: Number)
        ensures
            r.deep_view() == self.deep_view(),
    {
        Number { text: self.text.clone() }
    }
}

impl Json {
    /// A copy of the whole value.
    pub fn copy(&self) -> (r: Json)
        ensures
            r.deep_view() == self.deep_view(),
        decreases self,
    {
        match self {
            Json::Null => Json::Null,
            Json::Bool(b) => Json::Bool(*b),
            Json::Number(n) => Json::Number(n.copy()),
            Json::Text(s) => Json::Text(s.clone()),
            Json::Array(items) => {
                let mut out: Vec<Json> = Vec::new();
                let mut i: usize = 0;
                while i < items.len()
                    invariant
                        *self == Json::Array(*items),
                        0 <= i <= items.len(),
                        out.len() == i,
                        forall|k: int| 0 <= k < i ==> out[k].deep_view() == items[k].deep_view(),
                    decreases items.len() - i,
                {
                    proof {
                        assert(decreases_to!(*self => self->Array_0));
                    }
                    out.push(items[i].copy());
                    i = i + 1;
                }
                assert(items_of(out@) =~= items_of(items@));
                Json::Array(out)
            },
            Json::Object(members) => {
                let mut out: Vec<Member> = Vec::new();
                let mut i: usize = 0;
                while i < members.len()
                    invariant
                        *self == Json::Object(*members),
                        0 <= i <= members.len(),
                        out.len() == i,
                        forall|k: int|
                            0 <= k < i ==> out[k].name@ == members[k].name@
                                && out[k].value.deep_view() == members[k].value.deep_view(),
                    decreases members.len() - i,
                {
                    proof {
                        assert(decreases_to!(*self => self->Object_0));
                    }
                    let name = members[i].name.clone();
                    let value = members[i].value.copy();
                    out.push(Member { name, value });
                    i = i + 1;
                }
                assert(members_of(out@) =~= members_of(members@));
                Json::Object(out)
            },
        }
    }
}

/// Whether two strings hold the same characters.
pub fn same_text(a: &str, b: &str) -> (r: bool)
    ensures
        r == (a@ == b@),
{
    let x = a.as_bytes();
    let y = b.as_bytes();
    proof {
        encode_utf8_decode_utf8(a@);
        encode_utf8_decode_utf8(b@);
    }
    if x.len() != y.len() {
        return false;
    }
    let mut i: usize = 0;
    while i < x.len()
        invariant
            x@ == vstd::utf8::encode_utf8(a@),
            y@ == vstd::utf8::encode_utf8(b@),
            x@.len() == y@.len(),
            0 <= i <= x@.len(),
            forall|k: int| 0 <= k < i ==> x@[k] == y@[k],
        decreases x@.len() - i,
    {
        if x[i] != y[i] {
            return false;
        }
        i = i + 1;
    }
    assert(x@ =~= y@);
    true
}

} // verus!
