//! The JSON text of a product listing.
//!
//! A listing is an array of objects, one per product, each with the members
//! `id`, `name` and `price` in this order and with no white space between
//! tokens. Numbers are written in decimal; a name is written as the JSON
//! string that `serde_json` makes of it.

use crate::product::{views, Product, ProductView};
use vstd::prelude::*;

verus! {

/// The error type of `serde_json`. Nothing is read from a value of it.
#[verifier::external_type_specification]
#[verifier::external_body]
pub struct ExJsonError(serde_json::Error);

/// The JSON string, quotes and escapes included, that `serde_json::to_string`
/// makes of a text.
pub uninterp spec fn json_string(text: Seq<char>) -> Seq<char>;

/// Calls `serde_json::to_string` on a string slice. The contract claims that
/// the call succeeds and that what it returns depends on the characters of
/// the slice alone: the serializer writes a string into a buffer in memory,
/// which cannot fail, and escapes it byte by byte from a fixed table.
#[verifier::external_body]
fn to_json_string(text: &str) -> (out: Result<String, serde_json::Error>)
    ensures
        out is Ok,
        out->Ok_0@ == json_string(text@),
{
    serde_json::to_string(text)
}

/// The character of one decimal digit.
pub open spec fn digit_char(d: int) -> char {
    if d == 0 {
        '0'
    } else if d == 1 {
        '1'
    } else if d == 2 {
        '2'
    } else if d == 3 {
        '3'
    } else if d == 4 {
        '4'
    } else if d == 5 {
        '5'
    } else if d == 6 {
        '6'
    } else if d == 7 {
        '7'
    } else if d == 8 {
        '8'
    } else {
        '9'
    }
}

/// The decimal digits of a natural number, without leading zeros.
pub open spec fn digits(n: nat) -> Seq<char>
    decreases n,
{
    if n < 10 {
        seq![digit_char(n as int)]
    } else {
        digits(n / 10).push(digit_char((n % 10) as int))
    }
}

/// An integer in decimal, with a minus sign where it is negative.
pub open spec fn decimal(n: int) -> Seq<char> {
    if n < 0 {
        seq!['-'] + digits((-n) as nat)
    } else {
        digits(n as nat)
    }
}

/// A price as a JSON value: the number, or `null` where there is none.
pub open spec fn price_json(price: Option<int>) -> Seq<char> {
    match price {
        Some(p) => decimal(p),
        None => "null"@,
    }
}

/// The JSON object of a product whose name is already written as a JSON
/// string.
pub open spec fn product_json(id: int, name_json: Seq<char>, price: Option<int>) -> Seq<char> {
    "{\"id\":"@ + decimal(id) + ",\"name\":"@ + name_json + ",\"price\":"@ + price_json(price)
        + "}"@
}

/// The JSON object of a product.
pub open spec fn product_text(p: ProductView) -> Seq<char> {
    product_json(p.id, json_string(p.name), p.price)
}

/// The objects of the products, in their order, with a comma between each
/// two.
pub open spec fn members_text(products: Seq<ProductView>) -> Seq<char>
    decreases products.len(),
{
    if products.len() == 0 {
        Seq::empty()
    } else if products.len() == 1 {
        product_text(products[0])
    } else {
        members_text(products.drop_last()) + ","@ + product_text(products.last())
    }
}

/// The JSON array of the products, in their order.
pub open spec fn listing_text(products: Seq<ProductView>) -> Seq<char> {
    "["@ + members_text(products) + "]"@
}

/// The text of one decimal digit.
fn digit_str(d: u32) -> (out: &'static str)
    requires
        d < 10,
    ensures
        out@ == seq![digit_char(d as int)],
{
    let out = if d == 0 {
        "0"
    } else if d == 1 {
        "1"
    } else if d == 2 {
        "2"
    } else if d == 3 {
        "3"
    } else if d == 4 {
        "4"
    } else if d == 5 {
        "5"
    } else if d == 6 {
        "6"
    } else if d == 7 {
        "7"
    } else if d == 8 {
        "8"
    } else {
        "9"
    };
    proof {
        reveal_strlit("0");
        reveal_strlit("1");
        reveal_strlit("2");
        reveal_strlit("3");
        reveal_strlit("4");
        reveal_strlit("5");
        reveal_strlit("6");
        reveal_strlit("7");
        reveal_strlit("8");
        reveal_strlit("9");
        assert(out@ =~= seq![digit_char(d as int)]);
    }
    out
}

/// Appends the decimal digits of `n`.
fn append_digits(out: &mut String, n: u32)
    ensures
        final(out)@ == old(out)@ + digits(n as nat),
    decreases n,
{
    if n >= 10 {
        append_digits(out, n / 10);
    }
    out.append(digit_str(n % 10));
    assert(out@ =~= old(out)@ + digits(n as nat));
}

/// Appends `n` in decimal.
pub fn append_decimal(out: &mut String, n: i32)
    ensures
        final(out)@ == old(out)@ + decimal(n as int),
{
    if n < 0 {
        proof {
            reveal_strlit("-");
        }
        out.append("-");
        assert(out@ =~= old(out)@ + seq!['-']);
        let magnitude: u32 = if n == i32::MIN {
            2147483648
        } else {
            (0 - n) as u32
        };
        append_digits(out, magnitude);
        assert(out@ =~= old(out)@ + decimal(n as int));
    } else {
        append_digits(out, n as u32);
    }
}

/// Writes the JSON object of a product whose name is already a JSON string.
pub fn render_fields(id: i32, name_json: &str, price: Option<i32>) -> (out: String)
    ensures
        out@ == product_json(
            id as int,
            name_json@,
            match price {
                Some(p) => Some(p as int),
                None => None,
            },
        ),
{
    let mut out = String::from_str("{\"id\":");
    append_decimal(&mut out, id);
    out.append(",\"name\":");
    out.append(name_json);
    out.append(",\"price\":");
    match price {
        Some(p) => {
            append_decimal(&mut out, p);
        },
        None => {
            out.append("null");
        },
    }
    out.append("}");
    out
}

/// Writes the JSON object of a product.
pub fn render_product(product: &Product) -> (out: String)
    ensures
        out@ == product_text(product@),
{
    let name_json = to_json_string(product.name.as_str()).unwrap();
    render_fields(product.id, name_json.as_str(), product.price)
}

/// Writes the JSON array of the products, in their order.
pub fn render_listing(products: &Vec<Product>) -> (out: String)
    ensures
        out@ == listing_text(views(products@)),
{
    let mut out = String::from_str("[");
    let mut i: usize = 0;
    while i < products.len()
        invariant
            i <= products.len(),
            out@ == "["@ + members_text(views(products@).take(i as int)),
        decreases products.len() - i,
    {
        let ghost done = views(products@).take(i as int);
        let ghost grown = views(products@).take(i + 1);
        if i > 0 {
            out.append(",");
        }
        let item = render_product(&products[i]);
        out.append(item.as_str());
        proof {
            assert(grown.drop_last() =~= done);
            assert(grown.last() == products@[i as int]@);
            assert(out@ =~= "["@ + members_text(grown));
        }
        i += 1;
    }
    assert(views(products@).take(products.len() as int) =~= views(products@));
    out.append("]");
    out
}

} // verus!
