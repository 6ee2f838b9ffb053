//! Rendering of the JSON wire format.
//!
//! The envelope and the payloads emit their fields through the helpers
//! here, and every helper states the exact text it appends.  A string
//! value is embedded verbatim between quotes; the characters admitted
//! by [`json_safe`] are exactly those that need no escaping, and the
//! constructors of the payload types accept no others.

use vstd::prelude::*;
use vstd::string::StrSliceExecFns;
use vstd::string::StringExecFns;

verus! {

/// A character that may stand inside a JSON string without escaping:
/// printable ASCII less the double quote and the backslash.
pub open spec fn json_safe_char(c: char) -> bool {
    c != '"' && c != '\\' && ' ' <= c && c <= '~'
}

/// A text that may be embedded in a JSON string as it is.
pub open spec fn json_safe(s: Seq<char>) -> bool {
    forall|i: int| 0 <= i < s.len() ==> json_safe_char(#[trigger] s[i])
}

/// The JSON string holding `s` verbatim.
pub open spec fn json_string(s: Seq<char>) -> Seq<char> {
    seq!['"'] + s + seq!['"']
}

/// One field of a JSON object, rendered with its leading comma: the
/// envelope always writes the identity field first, so every later
/// field starts with a separator.
pub open spec fn render_field(key: Seq<char>, value: Seq<char>) -> Seq<char> {
    seq![','] + json_string(key) + seq![':'] + value
}

/// A sequence of fields, each rendered with its leading comma.
pub open spec fn render_fields(fields: Seq<(Seq<char>, Seq<char>)>) -> Seq<char>
    decreases fields.len(),
{
    if fields.len() == 0 {
        Seq::empty()
    } else {
        render_field(fields[0].0, fields[0].1) + render_fields(fields.drop_first())
    }
}

/// The items of a JSON array, comma-separated.
pub open spec fn render_array_items(items: Seq<Seq<char>>) -> Seq<char>
    decreases items.len(),
{
    if items.len() == 0 {
        Seq::empty()
    } else if items.len() == 1 {
        items[0]
    } else {
        items[0] + seq![','] + render_array_items(items.drop_first())
    }
}

/// The JSON array holding `items` in order.
pub open spec fn render_array(items: Seq<Seq<char>>) -> Seq<char> {
    seq!['['] + render_array_items(items) + seq![']']
}

/// Extending the item list appends one item behind a comma, or alone
/// into an empty list.
pub proof fn lemma_render_array_items_push(items: Seq<Seq<char>>, v: Seq<char>)
    ensures
        render_array_items(items.push(v)) == if items.len() == 0 {
            v
        } else {
            render_array_items(items) + seq![','] + v
        },
    decreases items.len(),
{
    if items.len() == 0 {
        assert(render_array_items(items.push(v)) =~= v);
    } else {
        assert(items.push(v).drop_first() =~= items.drop_first().push(v));
        lemma_render_array_items_push(items.drop_first(), v);
        assert(render_array_items(items.push(v)) =~= render_array_items(items) + seq![','] + v);
    }
}

/// The decimal numeral of `n`, most significant digit first.
pub open spec fn dec_digits(n: nat) -> Seq<char>
    decreases n,
{
    if n < 10 {
        seq![dec_digit(n)]
    } else {
        dec_digits(n / 10) + seq![dec_digit(n % 10)]
    }
}

/// The digit character for `d <= 9`.
pub open spec fn dec_digit(d: nat) -> char {
    if d == 0 {
        '0'
    } else if d == 1 {
        '1'
    } else if d == 2 {
        '2'
    } else if d == 3 {
        '3'
    } else if d == 4 {
        '4'
    } else if d == 5 {
        '5'
    } else if d == 6 {
        '6'
    } else if d == 7 {
        '7'
    } else if d == 8 {
        '8'
    } else {
        '9'
    }
}

fn digit_str(d: u64) -> (r: &'static str)
    requires
        d < 10,
    ensures
        r@ == seq![dec_digit(d as nat)],
{
    let r: &'static str = if d == 0 {
        "0"
    } else if d == 1 {
        "1"
    } else if d == 2 {
        "2"
    } else if d == 3 {
        "3"
    } else if d == 4 {
        "4"
    } else if d == 5 {
        "5"
    } else if d == 6 {
        "6"
    } else if d == 7 {
        "7"
    } else if d == 8 {
        "8"
    } else {
        "9"
    };
    proof {
        reveal_strlit("0");
        reveal_strlit("1");
        reveal_strlit("2");
        reveal_strlit("3");
        reveal_strlit("4");
        reveal_strlit("5");
        reveal_strlit("6");
        reveal_strlit("7");
        reveal_strlit("8");
        reveal_strlit("9");
        assert(r@ =~= seq![dec_digit(d as nat)]);
    }
    r
}

/// Appends the decimal numeral of `n`.
pub fn append_decimal(out: &mut String, n: u64)
    ensures
        final(out)@ == old(out)@ + dec_digits(n as nat),
    decreases n,
{
    if n < 10 {
        out.append(digit_str(n));
    } else {
        proof {
            assert(n as nat / 10 < n as nat) by (nonlinear_arith)
                requires
                    n >= 10,
            ;
        }
        append_decimal(out, n / 10);
        out.append(digit_str(n % 10));
        assert(final(out)@ =~= old(out)@ + dec_digits(n as nat));
    }
}

/// Tells whether every character of `s` may stand in a JSON string
/// unescaped.
pub fn is_json_safe(s: &str) -> (r: bool)
    ensures
        r == json_safe(s@),
{
    let n = s.unicode_len();
    let mut i: usize = 0;
    while i < n
        invariant
            0 <= i <= n == s@.len(),
            forall|j: int| 0 <= j < i ==> json_safe_char(#[trigger] s@[j]),
        decreases n - i,
    {
        let c = s.get_char(i);
        if c == '"' || c == '\\' || c < ' ' || c > '~' {
            return false;
        }
        i += 1;
    }
    true
}

/// Appends `s` as a JSON string, verbatim between quotes.
pub fn append_json_string(out: &mut String, s: &str)
    ensures
        final(out)@ == old(out)@ + json_string(s@),
{
    out.append("\"");
    out.append(s);
    out.append("\"");
    proof {
        reveal_strlit("\"");
        assert(final(out)@ =~= old(out)@ + json_string(s@));
    }
}

/// Appends one string-valued field, with its leading comma.
pub fn append_string_field(out: &mut String, key: &str, value: &str)
    ensures
        final(out)@ == old(out)@ + render_field(key@, json_string(value@)),
{
    out.append(",");
    append_json_string(out, key);
    out.append(":");
    append_json_string(out, value);
    proof {
        reveal_strlit(",");
        reveal_strlit(":");
        assert(final(out)@ =~= old(out)@ + render_field(key@, json_string(value@)));
    }
}

/// Appends one field whose value is already rendered, with its leading
/// comma.
pub fn append_raw_field(out: &mut String, key: &str, value: &str)
    ensures
        final(out)@ == old(out)@ + render_field(key@, value@),
{
    out.append(",");
    append_json_string(out, key);
    out.append(":");
    out.append(value);
    proof {
        reveal_strlit(",");
        reveal_strlit(":");
        assert(final(out)@ =~= old(out)@ + render_field(key@, value@));
    }
}

} // verus!
