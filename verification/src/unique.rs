//! The file's text determines the record: no two records are written alike.

use vstd::prelude::*;
use crate::codec::{framed, record_text};
use crate::json::{escaped, escaped_char, hex_digit, json_string};
use crate::record::PreferencesView;

verus! {

/// Two texts that are equal behind a common beginning are equal.
proof fn same_beginning_same_rest(beginning: Seq<char>, x: Seq<char>, y: Seq<char>)
    requires
        beginning + x == beginning + y,
    ensures
        x == y,
{
    let n = beginning.len() as int;
    assert(x =~= (beginning + x).subrange(n, n + x.len()));
    assert(y =~= (beginning + y).subrange(n, n + y.len()));
}

/// An escaped character never begins with a quote, so the quote that ends a
/// JSON string cannot be taken for a part of its content.
proof fn escaped_char_begins_without_quote(c: char)
    ensures
        escaped_char(c).len() >= 1,
        escaped_char(c)[0] != '"',
{
}

/// The escaped characters are a prefix code: whatever follows, the first
/// escaped character of a text can be read off in one way only.
proof fn escaped_char_reads_one_way(c: char, x: Seq<char>, d: char, y: Seq<char>)
    requires
        escaped_char(c) + x == escaped_char(d) + y,
    ensures
        c == d,
        x == y,
{
    let a = escaped_char(c);
    let b = escaped_char(d);
    let left = a + x;
    let right = b + y;
    assert(left[0] == right[0]);
    assert(left[0] == a[0] && right[0] == b[0]);
    if a[0] == '\\' {
        assert(b[0] == '\\');
        assert(a.len() >= 2 && b.len() >= 2);
        assert(left[1] == a[1] && right[1] == b[1]);
        if a[1] == 'u' {
            assert(a.len() == 6 && b.len() == 6);
            assert(left[4] == a[4] && right[4] == b[4]);
            assert(left[5] == a[5] && right[5] == b[5]);
            let m = (c as u32) as int;
            let n = (d as u32) as int;
            assert(0 <= m < 0x20 && 0 <= n < 0x20);
            assert(hex_digit(m / 16) == hex_digit(n / 16));
            assert(hex_digit(m % 16) == hex_digit(n % 16));
            assert(m / 16 == n / 16);
            assert(m % 16 == n % 16);
            assert(m == n);
            assert(c == d);
        } else {
            assert(a.len() == 2 && b.len() == 2);
            assert(c == d);
        }
    } else {
        assert(a =~= seq![c]);
        assert(b[0] == c);
        assert(b =~= seq![d]);
    }
    same_beginning_same_rest(a, x, y);
}

/// The content of a JSON string, up to the quote that ends it, can be read
/// off in one way only.
proof fn escaped_reads_one_way(s: Seq<char>, x: Seq<char>, t: Seq<char>, y: Seq<char>)
    requires
        escaped(s) + seq!['"'] + x == escaped(t) + seq!['"'] + y,
    ensures
        s == t,
        x == y,
    decreases s.len(),
{
    let left = escaped(s) + seq!['"'] + x;
    let right = escaped(t) + seq!['"'] + y;
    if s.len() == 0 {
        assert(left[0] == '"');
        if t.len() != 0 {
            escaped_char_begins_without_quote(t.first());
            assert(right[0] == escaped_char(t.first())[0]);
        }
        assert(s =~= t);
        assert(left =~= seq!['"'] + x);
        assert(right =~= seq!['"'] + y);
        same_beginning_same_rest(seq!['"'], x, y);
    } else {
        escaped_char_begins_without_quote(s.first());
        assert(left[0] == escaped_char(s.first())[0]);
        if t.len() == 0 {
            assert(right[0] == '"');
        }
        let s_rest = escaped(s.drop_first()) + seq!['"'] + x;
        let t_rest = escaped(t.drop_first()) + seq!['"'] + y;
        assert(left =~= escaped_char(s.first()) + s_rest);
        assert(right =~= escaped_char(t.first()) + t_rest);
        escaped_char_reads_one_way(s.first(), s_rest, t.first(), t_rest);
        escaped_reads_one_way(s.drop_first(), x, t.drop_first(), y);
        assert(s =~= seq![s.first()] + s.drop_first());
        assert(t =~= seq![t.first()] + t.drop_first());
    }
}

/// A JSON string ends itself: from a text that begins with one, the string
/// and what follows it can be told apart in one way only.
pub proof fn json_string_reads_one_way(s: Seq<char>, x: Seq<char>, t: Seq<char>, y: Seq<char>)
    requires
        json_string(s) + x == json_string(t) + y,
    ensures
        s == t,
        x == y,
{
    let s_rest = escaped(s) + seq!['"'] + x;
    let t_rest = escaped(t) + seq!['"'] + y;
    assert(json_string(s) + x =~= seq!['"'] + s_rest);
    assert(json_string(t) + y =~= seq!['"'] + t_rest);
    same_beginning_same_rest(seq!['"'], s_rest, t_rest);
    escaped_reads_one_way(s, x, t, y);
}

/// The frame, grouped from the right.
proof fn framed_from_the_right(model: Seq<char>, prompt: Seq<char>, api_key: Seq<char>)
    ensures
        framed(model, prompt, api_key) == "{\n  \"model\": "@ + (model + (",\n  \"prompt\": "@ + (
        prompt + (",\n  \"apiKey\": "@ + (api_key + "\n}"@))))),
{
    let open = "{\n  \"model\": "@;
    let second = ",\n  \"prompt\": "@;
    let third = ",\n  \"apiKey\": "@;
    let close = "\n}"@;
    let key_on = api_key + close;
    let third_on = third + key_on;
    let prompt_on = prompt + third_on;
    let second_on = second + prompt_on;
    let model_on = model + second_on;
    let five = open + model + second + prompt + third;
    let four = open + model + second + prompt;
    let three = open + model + second;
    let two = open + model;
    assert(five + api_key + close =~= five + key_on);
    assert(four + third + key_on =~= four + third_on);
    assert(three + prompt + third_on =~= three + prompt_on);
    assert(two + second + prompt_on =~= two + second_on);
    assert(open + model + second_on =~= open + model_on);
}

/// No two records are stored as the same text: what a save writes
/// determines the record that was saved.
pub proof fn record_text_determines_record(a: PreferencesView, b: PreferencesView)
    requires
        record_text(a) == record_text(b),
    ensures
        a == b,
{
    let open = "{\n  \"model\": "@;
    let second = ",\n  \"prompt\": "@;
    let third = ",\n  \"apiKey\": "@;
    let close = "\n}"@;
    let a_third_on = third + (json_string(a.api_key) + close);
    let b_third_on = third + (json_string(b.api_key) + close);
    let a_second_on = second + (json_string(a.prompt) + a_third_on);
    let b_second_on = second + (json_string(b.prompt) + b_third_on);
    framed_from_the_right(json_string(a.model), json_string(a.prompt), json_string(a.api_key));
    framed_from_the_right(json_string(b.model), json_string(b.prompt), json_string(b.api_key));
    same_beginning_same_rest(
        open,
        json_string(a.model) + a_second_on,
        json_string(b.model) + b_second_on,
    );
    json_string_reads_one_way(a.model, a_second_on, b.model, b_second_on);
    same_beginning_same_rest(
        second,
        json_string(a.prompt) + a_third_on,
        json_string(b.prompt) + b_third_on,
    );
    json_string_reads_one_way(a.prompt, a_third_on, b.prompt, b_third_on);
    same_beginning_same_rest(third, json_string(a.api_key) + close, json_string(b.api_key) + close);
    json_string_reads_one_way(a.api_key, close, b.api_key, close);
}

} // verus!
