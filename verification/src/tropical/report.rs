//! Rendering of the comparison site's search results.

use crate::decimal::{nat_text, number_text};
use crate::format::{align_left, fill, left_aligned, repeat};
use crate::text::{chars_of, join, joined, slice_of, string_of, views};
use crate::tropical::models::{tropical_views, TropicalProduct, TropicalProductView};
use vstd::prelude::*;
use vstd::string::StringExecFns;

verus! {

/// The price column of the result table.
pub open spec fn price_label(p: TropicalProductView) -> Seq<char> {
    match p.price {
        Some(price) => "€"@ + price.fixed_text(2),
        None => "N/A"@,
    }
}

/// A title cut to its first 52 characters and an ellipsis, where it is
/// longer than that.
pub open spec fn short_title(title: Seq<char>) -> Seq<char> {
    if title.len() > 52 {
        title.take(52) + "..."@
    } else {
        title
    }
}

/// A row of the result table: four columns, each brought to its width.
pub open spec fn report_row(
    number: Seq<char>,
    asin: Seq<char>,
    price: Seq<char>,
    title: Seq<char>,
) -> Seq<char> {
    left_aligned(number, 3, ' ') + " "@ + left_aligned(asin, 12, ' ') + " "@ + left_aligned(
        price,
        10,
        ' ',
    ) + " "@ + left_aligned(title, 55, ' ')
}

/// The row of the product at a position of the list, counted from 0.
pub open spec fn product_row(products: Seq<TropicalProductView>, i: int) -> Seq<char> {
    report_row(
        nat_text((i + 1) as nat),
        products[i].asin,
        price_label(products[i]),
        short_title(products[i].title),
    )
}

/// The lines of the result table.
pub open spec fn report_lines(products: Seq<TropicalProductView>) -> Seq<Seq<char>> {
    seq![
        "TropicalPrice Search Results:"@,
        fill('=', 80),
        report_row("#"@, "ASIN"@, "Price"@, "Title"@),
        fill('-', 80),
    ] + Seq::new(products.len(), |i: int| product_row(products, i)) + seq![
        Seq::empty(),
        "💡 To compare EU prices: amz-crawler compare <ASIN>"@,
        "💡 TropicalPrice URL: https://tropicalprice.com/product/<ASIN>"@,
    ]
}

/// The search results as a table, or a fixed line where there are none.
pub open spec fn report_text(products: Seq<TropicalProductView>) -> Seq<char> {
    if products.len() == 0 {
        "No products found on TropicalPrice."@
    } else {
        joined(report_lines(products), "\n"@)
    }
}

/// A row of the result table.
fn row_of(number: &str, asin: &str, price: &str, title: &str) -> (r: String)
    ensures
        r@ == report_row(number@, asin@, price@, title@),
{
    let mut row = align_left(number, 3, ' ');
    row.append(" ");
    row.append(align_left(asin, 12, ' ').as_str());
    row.append(" ");
    row.append(align_left(price, 10, ' ').as_str());
    row.append(" ");
    row.append(align_left(title, 55, ' ').as_str());
    row
}

/// The price column of the result table.
fn price_label_of(product: &TropicalProduct) -> (r: String)
    ensures
        r@ == price_label(product@),
{
    match &product.price {
        Some(price) => {
            let mut label = "€".to_owned();
            label.append(price.to_fixed(2).as_str());
            label
        },
        None => "N/A".to_owned(),
    }
}

/// A title cut to its first 52 characters and an ellipsis.
fn shorten_title(title: &str) -> (r: String)
    ensures
        r@ == short_title(title@),
{
    let chars = chars_of(title);
    if chars.len() > 52 {
        let head = slice_of(chars.as_slice(), 0, 52);
        assert(head@ == title@.take(52));
        let mut r = string_of(head.as_slice());
        r.append("...");
        r
    } else {
        title.to_owned()
    }
}

/// Renders the search results as a table.
pub fn format_search_results(products: &[TropicalProduct]) -> (r: String)
    ensures
        r@ == report_text(tropical_views(products@)),
{
    if products.len() == 0 {
        return "No products found on TropicalPrice.".to_owned();
    }
    let ghost all = tropical_views(products@);
    let mut lines: Vec<String> = Vec::new();
    lines.push("TropicalPrice Search Results:".to_owned());
    lines.push(repeat('=', 80));
    lines.push(row_of("#", "ASIN", "Price", "Title"));
    lines.push(repeat('-', 80));
    let mut i: usize = 0;
    while i < products.len()
        invariant
            i <= products.len(),
            all == tropical_views(products@),
            lines@.len() == 4 + i,
            lines@[0]@ == "TropicalPrice Search Results:"@,
            lines@[1]@ == fill('=', 80),
            lines@[2]@ == report_row("#"@, "ASIN"@, "Price"@, "Title"@),
            lines@[3]@ == fill('-', 80),
            forall|k: int| 0 <= k < i ==> (#[trigger] lines@[4 + k])@ == product_row(all, k),
        decreases products.len() - i,
    {
        let product = &products[i];
        assert(all[i as int] == product@);
        let number = number_text(i as u64 + 1);
        lines.push(
            row_of(
                number.as_str(),
                product.asin.as_str(),
                price_label_of(product).as_str(),
                shorten_title(product.title.as_str()).as_str(),
            ),
        );
        i = i + 1;
    }
    lines.push(String::new());
    lines.push("💡 To compare EU prices: amz-crawler compare <ASIN>".to_owned());
    lines.push("💡 TropicalPrice URL: https://tropicalprice.com/product/<ASIN>".to_owned());
    proof {
        let expected = report_lines(all);
        assert(views(lines@).len() == expected.len());
        assert forall|k: int| 0 <= k < expected.len() implies views(lines@)[k] == expected[k] by {
            if 4 <= k < 4 + all.len() {
                assert(lines@[4 + (k - 4)]@ == product_row(all, k - 4));
            }
        }
        assert(views(lines@) =~= expected);
    }
    join(&lines, "\n")
}

} // verus!
