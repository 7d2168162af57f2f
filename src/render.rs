//! Rendering of tagged values to display text.
use vstd::prelude::*;

use crate::value::TaggedValue;

verus! {

/// The character of the decimal digit `d`.
pub open spec fn digit_char(d: int) -> char {
    "0123456789"@[d]
}

/// The decimal digits of `n`, most significant first, without leading zeros.
pub open spec fn decimal(n: nat) -> Seq<char>
    decreases n,
{
    if n < 10 {
        seq![digit_char(n as int)]
    } else {
        decimal(n / 10).push(digit_char((n % 10) as int))
    }
}

/// The decimal form of a signed integer: a minus sign before the digits of a
/// negative value.
pub open spec fn signed_decimal(n: int) -> Seq<char> {
    if n < 0 {
        seq!['-'] + decimal((-n) as nat)
    } else {
        decimal(n as nat)
    }
}

/// The tags that have a name of their own, with that name.
pub open spec fn known_tags() -> Seq<(u64, Seq<char>)> {
    seq![(0u64, "IsoDateTime(Z)"@), (1004u64, "DateStr"@)]
}

/// The name of the first entry of `table` for `tag`, if there is one.
pub open spec fn lookup_tag(table: Seq<(u64, Seq<char>)>, tag: u64) -> Option<Seq<char>>
    decreases table.len(),
{
    if table.len() == 0 {
        None
    } else if table[0].0 == tag {
        Some(table[0].1)
    } else {
        lookup_tag(table.drop_first(), tag)
    }
}

/// The label shown for a tag: its name in the table of known tags, else its
/// decimal number.
pub open spec fn tag_label(tag: u64) -> Seq<char> {
    match lookup_tag(known_tags(), tag) {
        Some(name) => name,
        None => decimal(tag as nat),
    }
}

/// The display text of a value.
pub open spec fn render(v: TaggedValue) -> Seq<char>
    decreases v,
{
    match v {
        TaggedValue::Absent => "NULL"@,
        TaggedValue::Text(s) => "'"@ + s@ + "'"@,
        TaggedValue::Boolean(b) => "bool="@ + (if b {
            "true"@
        } else {
            "false"@
        }),
        TaggedValue::Integer(n) => "int="@ + signed_decimal(n as int),
        TaggedValue::Float(text) => "float="@ + text@,
        TaggedValue::Bytes(bytes) => "bytes len="@ + decimal(bytes@.len()),
        TaggedValue::Sequence(items) => "[ "@ + render_items(items@) + "]"@,
        TaggedValue::Mapping(pairs) => "{ "@ + render_pairs(pairs@) + "}"@,
        TaggedValue::Tagged(tag, inner) => "tag=("@ + tag_label(tag) + ", "@ + render(*inner)
            + ")"@,
    }
}

/// Each item of a sequence rendered and followed by `", "`, in order.
pub open spec fn render_items(items: Seq<TaggedValue>) -> Seq<char>
    decreases items,
{
    if items.len() == 0 {
        Seq::empty()
    } else {
        render_items(items.drop_last()) + render(items.last()) + ", "@
    }
}

/// Each pair of a mapping rendered as key, `": "`, value, in order, with
/// nothing between pairs.
pub open spec fn render_pairs(pairs: Seq<(TaggedValue, TaggedValue)>) -> Seq<char>
    decreases pairs,
{
    if pairs.len() == 0 {
        Seq::empty()
    } else {
        render_pairs(pairs.drop_last()) + render(pairs.last().0) + ": "@ + render(pairs.last().1)
    }
}

/// The one-character text of the decimal digit `d`.
fn digit_text(d: u8) -> (r: &'static str)
    requires
        d < 10,
    ensures
        r@ == seq![digit_char(d as int)],
{
    proof {
        reveal_strlit("0123456789");
    }
    let r = "0123456789".substring_char(d as usize, d as usize + 1);
    assert(r@ =~= seq![digit_char(d as int)]);
    r
}

/// The decimal digits of `n`.
pub fn decimal_string(n: u128) -> (r: String)
    ensures
        r@ == decimal(n as nat),
    decreases n,
{
    if n < 10 {
        String::from_str(digit_text(n as u8))
    } else {
        let mut s = decimal_string(n / 10);
        s.append(digit_text((n % 10) as u8));
        s
    }
}

/// The decimal form of `n`, with a minus sign when it is negative.
pub fn signed_decimal_string(n: i128) -> (r: String)
    ensures
        r@ == signed_decimal(n as int),
{
    if n < 0 {
        let magnitude: u128 = (-(n + 1)) as u128 + 1;
        let digits = decimal_string(magnitude);
        let mut s = String::from_str("-");
        s.append(digits.as_str());
        proof {
            reveal_strlit("-");
        }
        assert(s@ =~= signed_decimal(n as int));
        s
    } else {
        decimal_string(n as u128)
    }
}

/// The table of tags that have a name of their own.
fn tag_table() -> (r: Vec<(u64, &'static str)>)
    ensures
        r@.len() == known_tags().len(),
        forall|i: int|
            0 <= i < r@.len() ==> (#[trigger] r@[i]).0 == known_tags()[i].0 && r@[i].1@
                == known_tags()[i].1,
{
    vec![(0u64, "IsoDateTime(Z)"), (1004u64, "DateStr")]
}

/// The label of a tag: its name where the table of known tags has one, else
/// its decimal number.
pub fn convert_tag_to_string(value: u64) -> (r: String)
    ensures
        r@ == tag_label(value),
{
    let table = tag_table();
    let mut i: usize = 0;
    assert(known_tags().subrange(0, known_tags().len() as int) =~= known_tags());
    while i < table.len()
        invariant
            i <= table@.len(),
            table@.len() == known_tags().len(),
            forall|j: int|
                0 <= j < table@.len() ==> (#[trigger] table@[j]).0 == known_tags()[j].0
                    && table@[j].1@ == known_tags()[j].1,
            lookup_tag(known_tags(), value) == lookup_tag(
                known_tags().subrange(i as int, known_tags().len() as int),
                value,
            ),
        decreases table.len() - i,
    {
        let (tag, name) = table[i];
        let ghost rest = known_tags().subrange(i as int, known_tags().len() as int);
        assert(rest[0] == known_tags()[i as int]);
        if tag == value {
            return String::from_str(name);
        }
        assert(rest.drop_first() =~= known_tags().subrange(i + 1, known_tags().len() as int));
        i = i + 1;
    }
    assert(known_tags().subrange(i as int, known_tags().len() as int).len() == 0);
    decimal_string(value as u128)
}

/// The display text of a value, as [`render`] gives it.
pub fn convert_value_to_string(value: &TaggedValue) -> (r: String)
    ensures
        r@ == render(*value),
    decreases value,
{
    match value {
        TaggedValue::Absent => String::from_str("NULL"),
        TaggedValue::Text(s) => {
            let mut r = String::from_str("'");
            r.append(s.as_str());
            r.append("'");
            r
        },
        TaggedValue::Boolean(b) => {
            let mut r = String::from_str("bool=");
            if *b {
                r.append("true");
            } else {
                r.append("false");
            }
            r
        },
        TaggedValue::Integer(n) => {
            let digits = signed_decimal_string(*n);
            let mut r = String::from_str("int=");
            r.append(digits.as_str());
            r
        },
        TaggedValue::Float(text) => {
            let mut r = String::from_str("float=");
            r.append(text.as_str());
            r
        },
        TaggedValue::Bytes(bytes) => {
            let digits = decimal_string(bytes.len() as u128);
            let mut r = String::from_str("bytes len=");
            r.append(digits.as_str());
            r
        },
        TaggedValue::Sequence(items) => {
            let mut r = String::from_str("[ ");
            let mut i: usize = 0;
            while i < items.len()
                invariant
                    i <= items@.len(),
                    *value == TaggedValue::Sequence(*items),
                    r@ == "[ "@ + render_items(items@.take(i as int)),
                decreases items.len() - i,
            {
                assert(decreases_to!(*value => value->Sequence_0));
                assert(decreases_to!(items => items@));
                assert(decreases_to!(items@ => items@[i as int]));
                let item = convert_value_to_string(&items[i]);
                r.append(item.as_str());
                r.append(", ");
                assert(items@.take(i + 1).drop_last() =~= items@.take(i as int));
                i = i + 1;
            }
            assert(items@.take(i as int) =~= items@);
            r.append("]");
            r
        },
        TaggedValue::Mapping(pairs) => {
            let mut r = String::from_str("{ ");
            let mut i: usize = 0;
            while i < pairs.len()
                invariant
                    i <= pairs@.len(),
                    *value == TaggedValue::Mapping(*pairs),
                    r@ == "{ "@ + render_pairs(pairs@.take(i as int)),
                decreases pairs.len() - i,
            {
                assert(decreases_to!(*value => value->Mapping_0));
                assert(decreases_to!(pairs => pairs@));
                assert(decreases_to!(pairs@ => pairs@[i as int]));
                assert(decreases_to!(pairs@[i as int] => pairs@[i as int].0));
                assert(decreases_to!(pairs@[i as int] => pairs@[i as int].1));
                let key = convert_value_to_string(&pairs[i].0);
                let val = convert_value_to_string(&pairs[i].1);
                r.append(key.as_str());
                r.append(": ");
                r.append(val.as_str());
                assert(pairs@.take(i + 1).drop_last() =~= pairs@.take(i as int));
                i = i + 1;
            }
            assert(pairs@.take(i as int) =~= pairs@);
            r.append("}");
            r
        },
        TaggedValue::Tagged(tag, inner) => {
            let label = convert_tag_to_string(*tag);
            let shown = convert_value_to_string(&**inner);
            let mut r = String::from_str("tag=(");
            r.append(label.as_str());
            r.append(", ");
            r.append(shown.as_str());
            r.append(")");
            r
        },
    }
}

/// Rendering is deterministic: equal values have equal display text.
pub proof fn lemma_render_deterministic(a: TaggedValue, b: TaggedValue)
    requires
        a == b,
    ensures
        render(a) == render(b),
{
}

/// A tag without a name of its own is labelled by its decimal number.
pub proof fn lemma_unknown_tag_label(tag: u64)
    requires
        tag != 0,
        tag != 1004,
    ensures
        tag_label(tag) == decimal(tag as nat),
{
    let t = known_tags();
    reveal_with_fuel(lookup_tag, 3);
    assert(t.drop_first()[0] == t[1]);
    assert(t.drop_first().drop_first().len() == 0);
}

/// The named tags: tag 0 is a date-time string, tag 1004 a full date.
pub proof fn lemma_named_tag_labels()
    ensures
        tag_label(0) == "IsoDateTime(Z)"@,
        tag_label(1004) == "DateStr"@,
{
    let t = known_tags();
    reveal_with_fuel(lookup_tag, 2);
    assert(t.drop_first()[0] == t[1]);
}

} // verus!
