//! The payload tree that a response carries.

use vstd::prelude::*;
use vstd::string::*;

use crate::text::chars_of;
use crate::text::digit_char;
use crate::text::digit_to_char;
use crate::text::opt_view;

verus! {

/// A payload: a tree of texts, flags and counts under named members.
#[derive(Debug, PartialEq, Eq)]
pub enum Json {
    Null,
    Bool(bool),
    Number(u64),
    Text(String),
    List(Vec<Json>),
    Object(Vec<(String, Json)>),
}

/// What a payload holds, as a mathematical value.
pub ghost enum JsonView {
    Null,
    Bool(bool),
    Number(nat),
    Text(Seq<char>),
    List(Seq<JsonView>),
    Object(Seq<(Seq<char>, JsonView)>),
}

/// Whether no two of an object's members go by the same key.
pub open spec fn keys_distinct(members: Seq<(Seq<char>, JsonView)>) -> bool {
    forall|i: int, j: int|
        0 <= i < j < members.len() ==> (#[trigger] members[i]).0 != (#[trigger] members[j]).0
}

impl JsonView {
    /// Whether every object in the payload, at any depth, names each of its
    /// members once: such a payload loses nothing where its objects are held
    /// as maps from key to value.
    pub open spec fn well_keyed(self) -> bool
        decreases self,
    {
        match self {
            JsonView::List(items) => forall|i: int|
                0 <= i < items.len() ==> (#[trigger] items[i]).well_keyed(),
            JsonView::Object(members) => keys_distinct(members) && forall|i: int|
                0 <= i < members.len() ==> (#[trigger] members[i]).1.well_keyed(),
            _ => true,
        }
    }
}

impl View for Json {
    type V = JsonView;

    open spec fn view(&self) -> JsonView {
        json_view(*self)
    }
}

/// What the payload `j` holds.
pub open spec fn json_view(j: Json) -> JsonView
    decreases j, 0nat,
{
    match j {
        Json::Null => JsonView::Null,
        Json::Bool(b) => JsonView::Bool(b),
        Json::Number(n) => JsonView::Number(n as nat),
        Json::Text(s) => JsonView::Text(s@),
        Json::List(items) => JsonView::List(items_view(items@)),
        Json::Object(members) => JsonView::Object(members_view(members@)),
    }
}

/// The views of a list's items, in order.
pub open spec fn items_view(items: Seq<Json>) -> Seq<JsonView>
    decreases items, items.len(),
{
    if items.len() == 0 {
        Seq::empty()
    } else {
        items_view(items.drop_last()).push(json_view(items.last()))
    }
}

/// The views of an object's members, in order.
pub open spec fn members_view(members: Seq<(String, Json)>) -> Seq<(Seq<char>, JsonView)>
    decreases members, members.len(),
{
    if members.len() == 0 {
        Seq::empty()
    } else {
        members_view(members.drop_last()).push((members.last().0@, json_view(members.last().1)))
    }
}

/// The leaf for an optional text: the text, or `Null` where there is none.
pub open spec fn opt_text_view(o: Option<Seq<char>>) -> JsonView {
    match o {
        Some(s) => JsonView::Text(s),
        None => JsonView::Null,
    }
}

impl Json {
    /// A text leaf.
    pub fn text(s: &str) -> (j: Json)
        ensures
            j@ == JsonView::Text(s@),
    {
        Json::Text(String::from_str(s))
    }

    /// The leaf for an optional text.
    pub fn opt_text(o: &Option<String>) -> (j: Json)
        ensures
            j@ == opt_text_view(opt_view(*o)),
    {
        match o {
            Some(s) => Json::Text(s.clone()),
            None => Json::Null,
        }
    }

    /// A list of the given items.
    pub fn list(items: Vec<Json>) -> (j: Json)
        ensures
            j@ == JsonView::List(items_view(items@)),
    {
        Json::List(items)
    }

    /// An object of the given members.
    pub fn object(members: Vec<(String, Json)>) -> (j: Json)
        ensures
            j@ == JsonView::Object(members_view(members@)),
    {
        Json::Object(members)
    }
}

/// Appends the member `key: value` to the members of an object.
pub fn add_member(members: &mut Vec<(String, Json)>, key: &str, value: Json)
    ensures
        members_view(final(members)@) == members_view(old(members)@).push((key@, value@)),
{
    members.push((String::from_str(key), value));
    proof {
        assert(members@.drop_last() =~= old(members)@);
    }
}

/// Appends an item to the items of a list.
pub fn add_item(items: &mut Vec<Json>, item: Json)
    ensures
        items_view(final(items)@) == items_view(old(items)@).push(item@),
{
    items.push(item);
    proof {
        assert(items@.drop_last() =~= old(items)@);
    }
}

/// Whether `c` may follow a backslash to make an escape of two characters.
pub open spec fn is_short_escape(c: char) -> bool {
    c == '"' || c == '\\' || c == '/' || c == 'b' || c == 'f' || c == 'n' || c == 'r' || c == 't'
}

/// Whether `c` is a digit of base sixteen.
pub open spec fn is_hex_digit(c: char) -> bool {
    let code = c as u32;
    0x30 <= code <= 0x39 || 0x41 <= code <= 0x46 || 0x61 <= code <= 0x66
}

/// Whether `s` can stand between the quotes of a JSON string: read from the
/// left, it is made of characters that are no quote, no backslash and no
/// control character, and of escapes, each a backslash followed by one of
/// `"`, `\`, `/`, `b`, `f`, `n`, `r`, `t`, or by `u` and four digits of base
/// sixteen.
pub open spec fn is_string_body(s: Seq<char>) -> bool
    decreases s.len(),
{
    if s.len() == 0 {
        true
    } else if s[0] == '\\' {
        if s.len() >= 2 && is_short_escape(s[1]) {
            is_string_body(s.skip(2))
        } else if s.len() >= 6 && s[1] == 'u' && is_hex_digit(s[2]) && is_hex_digit(s[3])
            && is_hex_digit(s[4]) && is_hex_digit(s[5]) {
            is_string_body(s.skip(6))
        } else {
            false
        }
    } else {
        s[0] != '"' && s[0] as u32 >= 0x20 && is_string_body(s.drop_first())
    }
}

/// What stands for the character `c` between the quotes of a JSON string:
/// a quote and a backslash behind a backslash; backspace, form feed, line
/// feed, carriage return and tab as their letters behind a backslash; every
/// other control character as `\u00` and its two digits of base sixteen; and
/// every other character as itself.
pub open spec fn escaped_char(c: char) -> Seq<char> {
    let code = c as u32;
    if c == '"' {
        seq!['\\', '"']
    } else if c == '\\' {
        seq!['\\', '\\']
    } else if code == 0x08 {
        seq!['\\', 'b']
    } else if code == 0x0C {
        seq!['\\', 'f']
    } else if code == 0x0A {
        seq!['\\', 'n']
    } else if code == 0x0D {
        seq!['\\', 'r']
    } else if code == 0x09 {
        seq!['\\', 't']
    } else if code < 0x20 {
        seq![
            '\\',
            'u',
            '0',
            '0',
            digit_char((code / 16) as nat),
            digit_char((code % 16) as nat),
        ]
    } else {
        seq![c]
    }
}

/// What stands for the text `s` between the quotes of a JSON string: each
/// character's escape, in order.
pub open spec fn escaped_text(s: Seq<char>) -> Seq<char>
    decreases s.len(),
{
    if s.len() == 0 {
        Seq::empty()
    } else {
        escaped_text(s.drop_last()) + escaped_char(s.last())
    }
}

/// Appends what stands for `c` between the quotes of a JSON string.
pub fn push_escaped(out: &mut String, c: char)
    ensures
        final(out)@ == old(out)@ + escaped_char(c),
{
    let code: u32 = c as u32;
    if c == '"' {
        out.push('\\');
        out.push('"');
    } else if c == '\\' {
        out.push('\\');
        out.push('\\');
    } else if code == 0x08 {
        out.push('\\');
        out.push('b');
    } else if code == 0x0C {
        out.push('\\');
        out.push('f');
    } else if code == 0x0A {
        out.push('\\');
        out.push('n');
    } else if code == 0x0D {
        out.push('\\');
        out.push('r');
    } else if code == 0x09 {
        out.push('\\');
        out.push('t');
    } else if code < 0x20 {
        out.push('\\');
        out.push('u');
        out.push('0');
        out.push('0');
        out.push(digit_to_char((code / 16) as u8));
        out.push(digit_to_char((code % 16) as u8));
    } else {
        out.push(c);
    }
    proof {
        assert(out@ =~= old(out)@ + escaped_char(c));
    }
}

/// The text as it stands between the quotes of a JSON string.
pub fn escape_text(s: &str) -> (r: String)
    ensures
        r@ == escaped_text(s@),
{
    let chars = chars_of(s);
    let mut r = String::new();
    let mut i: usize = 0;
    proof {
        assert(chars@.take(0) =~= Seq::<char>::empty());
    }
    while i < chars.len()
        invariant
            i <= chars@.len(),
            r@ == escaped_text(chars@.take(i as int)),
        decreases chars@.len() - i,
    {
        proof {
            assert(chars@.take(i + 1).drop_last() =~= chars@.take(i as int));
        }
        push_escaped(&mut r, chars[i]);
        i += 1;
    }
    proof {
        assert(chars@.take(chars@.len() as int) =~= chars@);
    }
    r
}

} // verus!
