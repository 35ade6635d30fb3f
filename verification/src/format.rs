//! Rendering of products as a table, as Markdown and as CSV.
//!
//! JSON is the fourth output format; it is produced by a serializer outside
//! this library, so the functions here return no text where JSON is asked
//! for and there is something to serialize.

use crate::amazon::models::{Product, product_views, ProductView};
use crate::config::OutputFormat;
use crate::decimal::{nat_text, number_text};
use crate::text::{chars_of, join, joined, string_of, views};
use vstd::prelude::*;
use vstd::string::{StringExecFns, StrSliceExecFns};

verus! {

/// Renders products in one output format.
#[derive(Debug, Clone, Copy, PartialEq, Eq, Structural)]
pub struct Formatter {
    pub format: OutputFormat,
}

/// `count` copies of a character.
pub open spec fn fill(c: char, count: int) -> Seq<char> {
    Seq::new(
        if count > 0 {
            count as nat
        } else {
            0
        },
        |i: int| c,
    )
}

/// A text brought to a width by fill characters after it; a longer text
/// stays as it is.
pub open spec fn left_aligned(s: Seq<char>, width: nat, c: char) -> Seq<char> {
    s + fill(c, width - s.len())
}

/// A text brought to a width by fill characters before it; a longer text
/// stays as it is.
pub open spec fn right_aligned(s: Seq<char>, width: nat, c: char) -> Seq<char> {
    fill(c, width - s.len()) + s
}

/// A text cut to `limit` characters, the last three of them an ellipsis,
/// where it is longer than that.
pub open spec fn shortened(s: Seq<char>, limit: nat) -> Seq<char> {
    if s.len() > limit {
        s.take(limit - 3) + "..."@
    } else {
        s
    }
}

/// "true" or "false".
pub open spec fn bool_text(b: bool) -> Seq<char> {
    if b {
        "true"@
    } else {
        "false"@
    }
}

/// A text, or nothing in its place.
pub open spec fn or_empty(text: Option<Seq<char>>) -> Seq<char> {
    match text {
        Some(t) => t,
        None => Seq::empty(),
    }
}

/// A text with every double quote doubled.
pub open spec fn quotes_doubled(s: Seq<char>) -> Seq<char>
    decreases s.len(),
{
    if s.len() == 0 {
        Seq::empty()
    } else if s.last() == '"' {
        quotes_doubled(s.drop_last()) + seq!['"', '"']
    } else {
        quotes_doubled(s.drop_last()).push(s.last())
    }
}

/// Whether a CSV field must be quoted: it holds a comma, a double quote or
/// a line break.
pub open spec fn needs_quotes(s: Seq<char>) -> bool {
    s.contains(',') || s.contains('"') || s.contains('\n')
}

/// A text as a CSV field.
pub open spec fn csv_field(s: Seq<char>) -> Seq<char> {
    if needs_quotes(s) {
        seq!['"'] + quotes_doubled(s) + seq!['"']
    } else {
        s
    }
}

/// The first line of every CSV output.
pub open spec fn csv_header_text() -> Seq<char> {
    "asin,title,price,original_price,currency,rating,reviews,prime,sponsored,amazon_choice,in_stock,brand,url"@
}

/// The price column of the list formats.
pub open spec fn price_cell(p: ProductView) -> Seq<char> {
    match p.price {
        Some(price) => if price.is_hidden {
            "In cart"@
        } else {
            price.current.fixed_text(2)
        },
        None => "N/A"@,
    }
}

/// The rating column of the list formats.
pub open spec fn rating_cell(p: ProductView) -> Seq<char> {
    match p.rating {
        Some(rating) => rating.stars.fixed_text(1),
        None => "N/A"@,
    }
}

/// The badges of a product in the table view.
pub open spec fn table_badges(p: ProductView) -> Seq<Seq<char>> {
    (if p.is_prime {
        seq!["Prime"@]
    } else {
        Seq::empty()
    }) + (if p.is_amazon_choice {
        seq!["Amazon's Choice"@]
    } else {
        Seq::empty()
    }) + (if p.is_sponsored {
        seq!["Sponsored"@]
    } else {
        Seq::empty()
    })
}

/// The badges of a product in the Markdown view.
pub open spec fn markdown_badges(p: ProductView) -> Seq<Seq<char>> {
    (if p.is_prime {
        seq!["✓ Prime"@]
    } else {
        Seq::empty()
    }) + (if p.is_amazon_choice {
        seq!["⭐ Amazon's Choice"@]
    } else {
        Seq::empty()
    })
}

/// The price line of the table view.
pub open spec fn table_price_line(p: ProductView) -> Seq<char> {
    match p.price {
        Some(price) => if price.is_hidden {
            "Price:   See price in cart"@
        } else {
            match price.original {
                Some(original) => "Price:   "@ + price.currency + " "@ + price.current.fixed_text(
                    2,
                ) + " (was "@ + original.fixed_text(2) + ")"@,
                None => "Price:   "@ + price.currency + " "@ + price.current.fixed_text(2),
            }
        },
        None => "Price:   N/A"@,
    }
}

/// The rating line of the table view.
pub open spec fn table_rating_line(p: ProductView) -> Seq<char> {
    match p.rating {
        Some(rating) => "Rating:  "@ + rating.stars.fixed_text(1) + "/5 ("@ + nat_text(
            rating.review_count as nat,
        ) + " reviews)"@,
        None => "Rating:  N/A"@,
    }
}

/// The lines of one product in the table view.
pub open spec fn table_single_lines(p: ProductView) -> Seq<Seq<char>> {
    seq![
        "ASIN:    "@ + p.asin,
        "Title:   "@ + p.title,
        "URL:     "@ + p.url,
        table_price_line(p),
        table_rating_line(p),
    ] + (if table_badges(p).len() > 0 {
        seq!["Badges:  "@ + joined(table_badges(p), ", "@)]
    } else {
        Seq::empty()
    }) + (match p.brand {
        Some(brand) => seq!["Brand:   "@ + brand],
        None => Seq::empty(),
    }) + seq![
        if p.in_stock {
            "Stock:   In Stock"@
        } else {
            "Stock:   Out of Stock"@
        },
    ]
}

/// One product in the table view.
pub open spec fn table_single_text(p: ProductView) -> Seq<char> {
    joined(table_single_lines(p), "\n"@)
}

/// The head line of the product table.
pub open spec fn table_head() -> Seq<char> {
    left_aligned("ASIN"@, 10, ' ') + "  "@ + left_aligned("Price"@, 12, ' ') + "  "@
        + left_aligned("Rating"@, 8, ' ') + "  "@ + left_aligned("Prime"@, 5, ' ') + "  "@
        + "Title"@
}

/// The rule below the head line of the product table.
pub open spec fn table_rule() -> Seq<char> {
    fill('-', 10) + "  "@ + fill('-', 12) + "  "@ + fill('-', 8) + "  "@ + fill('-', 5) + "  "@
        + fill('-', 50)
}

/// The row of a product in the product table.
pub open spec fn table_row(p: ProductView) -> Seq<char> {
    left_aligned(p.asin, 10, ' ') + "  "@ + right_aligned(price_cell(p), 12, ' ') + "  "@
        + right_aligned(rating_cell(p), 8, ' ') + "  "@ + left_aligned(
        if p.is_prime {
            "Yes"@
        } else {
            "No"@
        },
        5,
        ' ',
    ) + "  "@ + shortened(p.title, 50)
}

/// The rows of a list of products, each made by `row`.
pub open spec fn rows(products: Seq<ProductView>, row: spec_fn(ProductView) -> Seq<char>) -> Seq<
    Seq<char>,
> {
    products.map_values(row)
}

/// The lines of the product table.
pub open spec fn table_lines(products: Seq<ProductView>) -> Seq<Seq<char>> {
    seq![table_head(), table_rule()] + rows(products, |p: ProductView| table_row(p)) + seq![
        Seq::empty(),
        "Total: "@ + nat_text(products.len()) + " products"@,
    ]
}

/// The product table.
pub open spec fn table_text(products: Seq<ProductView>) -> Seq<char> {
    joined(table_lines(products), "\n"@)
}

/// The price line of the Markdown view, where the product has a price.
pub open spec fn markdown_price_lines(p: ProductView) -> Seq<Seq<char>> {
    match p.price {
        Some(price) => if price.is_hidden {
            seq!["- **Price:** See price in cart"@]
        } else {
            match price.original {
                Some(original) => seq![
                    "- **Price:** "@ + price.currency + " "@ + price.current.fixed_text(2)
                        + " ~~"@ + original.fixed_text(2) + "~~"@,
                ],
                None => seq![
                    "- **Price:** "@ + price.currency + " "@ + price.current.fixed_text(2),
                ],
            }
        },
        None => Seq::empty(),
    }
}

/// The lines of one product in the Markdown view.
pub open spec fn markdown_single_lines(p: ProductView) -> Seq<Seq<char>> {
    seq![
        "## "@ + p.title,
        Seq::empty(),
        "- **ASIN:** "@ + p.asin,
        "- **URL:** [View on Amazon]("@ + p.url + ")"@,
    ] + markdown_price_lines(p) + (match p.rating {
        Some(rating) => seq![
            "- **Rating:** "@ + rating.stars.fixed_text(1) + "/5 ("@ + nat_text(
                rating.review_count as nat,
            ) + " reviews)"@,
        ],
        None => Seq::empty(),
    }) + (match p.brand {
        Some(brand) => seq!["- **Brand:** "@ + brand],
        None => Seq::empty(),
    }) + (if markdown_badges(p).len() > 0 {
        seq!["- **Badges:** "@ + joined(markdown_badges(p), ", "@)]
    } else {
        Seq::empty()
    })
}

/// One product in the Markdown view.
pub open spec fn markdown_single_text(p: ProductView) -> Seq<char> {
    joined(markdown_single_lines(p), "\n"@)
}

/// The row of a product in the Markdown table.
pub open spec fn markdown_row(p: ProductView) -> Seq<char> {
    "| "@ + p.asin + " | "@ + price_cell(p) + " | "@ + rating_cell(p) + " | "@ + (if p.is_prime {
        "✓"@
    } else {
        Seq::empty()
    }) + " | ["@ + shortened(p.title, 40) + "]("@ + p.url + ") |"@
}

/// The lines of the Markdown table.
pub open spec fn markdown_lines(products: Seq<ProductView>) -> Seq<Seq<char>> {
    seq![
        "| ASIN | Price | Rating | Prime | Title |"@,
        "|------|-------|--------|-------|-------|"@,
    ] + rows(products, |p: ProductView| markdown_row(p)) + seq![
        Seq::empty(),
        "*"@ + nat_text(products.len()) + " products found*"@,
    ]
}

/// The Markdown table.
pub open spec fn markdown_text(products: Seq<ProductView>) -> Seq<char> {
    joined(markdown_lines(products), "\n"@)
}

/// The price column of the CSV output: empty for a hidden price.
pub open spec fn csv_price(p: ProductView) -> Seq<char> {
    match p.price {
        Some(price) => if price.is_hidden {
            Seq::empty()
        } else {
            price.current.plain_text()
        },
        None => Seq::empty(),
    }
}

/// The original-price column of the CSV output.
pub open spec fn csv_original(p: ProductView) -> Seq<char> {
    match p.price {
        Some(price) => match price.original {
            Some(original) => original.plain_text(),
            None => Seq::empty(),
        },
        None => Seq::empty(),
    }
}

/// The currency column of the CSV output.
pub open spec fn csv_currency(p: ProductView) -> Seq<char> {
    match p.price {
        Some(price) => price.currency,
        None => Seq::empty(),
    }
}

/// The rating column of the CSV output.
pub open spec fn csv_rating(p: ProductView) -> Seq<char> {
    match p.rating {
        Some(rating) => rating.stars.plain_text(),
        None => Seq::empty(),
    }
}

/// The review column of the CSV output.
pub open spec fn csv_reviews(p: ProductView) -> Seq<char> {
    match p.rating {
        Some(rating) => nat_text(rating.review_count as nat),
        None => Seq::empty(),
    }
}

/// The row of a product in the CSV output.
pub open spec fn csv_row(p: ProductView) -> Seq<char> {
    p.asin + ","@ + csv_field(p.title) + ","@ + csv_price(p) + ","@ + csv_original(p) + ","@
        + csv_currency(p) + ","@ + csv_rating(p) + ","@ + csv_reviews(p) + ","@ + bool_text(
        p.is_prime,
    ) + ","@ + bool_text(p.is_sponsored) + ","@ + bool_text(p.is_amazon_choice) + ","@
        + bool_text(p.in_stock) + ","@ + csv_field(or_empty(p.brand)) + ","@ + p.url
}

/// The lines of the CSV output.
pub open spec fn csv_lines(products: Seq<ProductView>) -> Seq<Seq<char>> {
    seq![csv_header_text()] + rows(products, |p: ProductView| csv_row(p))
}

/// The CSV output.
pub open spec fn csv_text(products: Seq<ProductView>) -> Seq<char> {
    joined(csv_lines(products), "\n"@)
}

/// `count` copies of a character.
pub fn repeat(c: char, count: usize) -> (r: String)
    ensures
        r@ == fill(c, count as int),
{
    let mut r = String::new();
    let mut i: usize = 0;
    while i < count
        invariant
            i <= count,
            r@ == fill(c, i as int),
        decreases count - i,
    {
        r.push(c);
        assert(r@ == fill(c, i + 1));
        i = i + 1;
    }
    r
}

/// A text brought to a width by fill characters after it.
pub fn align_left(s: &str, width: usize, c: char) -> (r: String)
    ensures
        r@ == left_aligned(s@, width as nat, c),
{
    let len = s.unicode_len();
    let mut r = s.to_owned();
    if len < width {
        r.append(repeat(c, width - len).as_str());
    } else {
        assert(fill(c, width - len) == Seq::<char>::empty());
        assert(s@ + Seq::<char>::empty() == s@);
    }
    r
}

/// A text brought to a width by fill characters before it.
pub fn align_right(s: &str, width: usize, c: char) -> (r: String)
    ensures
        r@ == right_aligned(s@, width as nat, c),
{
    let len = s.unicode_len();
    if len < width {
        let mut r = repeat(c, width - len);
        r.append(s);
        r
    } else {
        assert(fill(c, width - len) == Seq::<char>::empty());
        assert(Seq::<char>::empty() + s@ == s@);
        s.to_owned()
    }
}

/// A text cut to `limit` characters, the last three of them an ellipsis,
/// where it is longer than that.
pub fn shorten(s: &str, limit: usize) -> (r: String)
    requires
        limit >= 3,
    ensures
        r@ == shortened(s@, limit as nat),
{
    let chars = chars_of(s);
    if chars.len() > limit {
        let head = crate::text::slice_of(chars.as_slice(), 0, limit - 3);
        assert(head@ == s@.take(limit - 3));
        let mut r = string_of(head.as_slice());
        r.append("...");
        r
    } else {
        s.to_owned()
    }
}

/// "true" or "false".
pub fn bool_name(b: bool) -> (r: &'static str)
    ensures
        r@ == bool_text(b),
{
    if b {
        "true"
    } else {
        "false"
    }
}

/// The price column of the list formats.
fn price_column(product: &Product) -> (r: String)
    ensures
        r@ == price_cell(product@),
{
    match &product.price {
        Some(price) => if price.is_hidden {
            "In cart".to_owned()
        } else {
            price.current.to_fixed(2)
        },
        None => "N/A".to_owned(),
    }
}

/// The rating column of the list formats.
fn rating_column(product: &Product) -> (r: String)
    ensures
        r@ == rating_cell(product@),
{
    match &product.rating {
        Some(rating) => rating.stars.to_fixed(1),
        None => "N/A".to_owned(),
    }
}

/// The price line of the table view.
fn table_price(product: &Product) -> (r: String)
    ensures
        r@ == table_price_line(product@),
{
    match &product.price {
        Some(price) => {
            if price.is_hidden {
                return "Price:   See price in cart".to_owned();
            }
            let mut line = "Price:   ".to_owned();
            line.append(price.currency.as_str());
            line.append(" ");
            line.append(price.current.to_fixed(2).as_str());
            if let Some(original) = price.original {
                line.append(" (was ");
                line.append(original.to_fixed(2).as_str());
                line.append(")");
            }
            line
        },
        None => "Price:   N/A".to_owned(),
    }
}

/// The rating line of a single view, after its label.
fn rating_line(label: &str, product: &Product) -> (r: Option<String>)
    ensures
        match product@.rating {
            Some(rating) => r is Some && r->0@ == label@ + rating.stars.fixed_text(1) + "/5 ("@
                + nat_text(rating.review_count as nat) + " reviews)"@,
            None => r is None,
        },
{
    match &product.rating {
        Some(rating) => {
            let mut line = label.to_owned();
            line.append(rating.stars.to_fixed(1).as_str());
            line.append("/5 (");
            line.append(number_text(rating.review_count as u64).as_str());
            line.append(" reviews)");
            Some(line)
        },
        None => None,
    }
}

/// A label followed by a text.
fn labelled(label: &str, text: &str) -> (r: String)
    ensures
        r@ == label@ + text@,
{
    let mut line = label.to_owned();
    line.append(text);
    line
}

impl Formatter {
    /// A formatter for an output format.
    pub fn new(format: OutputFormat) -> (r: Formatter)
        ensures
            r.format == format,
    {
        Formatter { format }
    }

    /// What `format_product` yields: the view of the product in the
    /// formatter's format, nothing for JSON.
    pub open spec fn product_text(self, p: ProductView) -> Option<Seq<char>> {
        match self.format {
            OutputFormat::Json => None,
            OutputFormat::Table => Some(table_single_text(p)),
            OutputFormat::Markdown => Some(markdown_single_text(p)),
            OutputFormat::Csv => Some(csv_text(seq![p])),
        }
    }

    /// What `format_products` yields: the list in the formatter's format.
    /// The empty list has a fixed text in every format; a list with
    /// products yields nothing for JSON.
    pub open spec fn products_text(self, products: Seq<ProductView>) -> Option<Seq<char>> {
        if products.len() == 0 {
            match self.format {
                OutputFormat::Json => Some("[]"@),
                OutputFormat::Csv => Some(csv_header_text()),
                _ => Some("No products found."@),
            }
        } else {
            match self.format {
                OutputFormat::Json => None,
                OutputFormat::Table => Some(table_text(products)),
                OutputFormat::Markdown => Some(markdown_text(products)),
                OutputFormat::Csv => Some(csv_text(products)),
            }
        }
    }

    /// Renders one product; `None` where the format is JSON.
    pub fn format_product(&self, product: &Product) -> (r: Option<String>)
        ensures
            crate::amazon::models::text_view(r) == self.product_text(product@),
    {
        match self.format {
            OutputFormat::Json => None,
            OutputFormat::Table => Some(self.table_single(product)),
            OutputFormat::Markdown => Some(self.markdown_single(product)),
            OutputFormat::Csv => {
                let mut lines: Vec<String> = Vec::new();
                lines.push(self.csv_header());
                lines.push(Formatter::csv_row_of(product));
                assert(views(lines@) =~= csv_lines(seq![product@]));
                Some(join(&lines, "\n"))
            },
        }
    }

    /// Renders a list of products; `None` where the format is JSON and the
    /// list is not empty.
    pub fn format_products(&self, products: &[Product]) -> (r: Option<String>)
        ensures
            crate::amazon::models::text_view(r) == self.products_text(product_views(products@)),
    {
        if products.len() == 0 {
            return match self.format {
                OutputFormat::Json => Some("[]".to_owned()),
                OutputFormat::Csv => Some(self.csv_header()),
                _ => Some("No products found.".to_owned()),
            };
        }
        match self.format {
            OutputFormat::Json => None,
            OutputFormat::Table => Some(self.table_products(products)),
            OutputFormat::Markdown => Some(self.markdown_products(products)),
            OutputFormat::Csv => Some(self.csv_products(products)),
        }
    }

    /// One product in the table view.
    pub fn table_single(&self, product: &Product) -> (r: String)
        ensures
            r@ == table_single_text(product@),
    {
        let mut lines: Vec<String> = Vec::new();
        lines.push(labelled("ASIN:    ", product.asin.as_str()));
        lines.push(labelled("Title:   ", product.title.as_str()));
        lines.push(labelled("URL:     ", product.url.as_str()));
        lines.push(table_price(product));
        match rating_line("Rating:  ", product) {
            Some(line) => lines.push(line),
            None => lines.push("Rating:  N/A".to_owned()),
        }
        let mut badges: Vec<String> = Vec::new();
        if product.is_prime {
            badges.push("Prime".to_owned());
        }
        if product.is_amazon_choice {
            badges.push("Amazon's Choice".to_owned());
        }
        if product.is_sponsored {
            badges.push("Sponsored".to_owned());
        }
        assert(views(badges@) =~= table_badges(product@));
        if badges.len() > 0 {
            lines.push(labelled("Badges:  ", join(&badges, ", ").as_str()));
        }
        if let Some(brand) = &product.brand {
            lines.push(labelled("Brand:   ", brand.as_str()));
        }
        if product.in_stock {
            lines.push("Stock:   In Stock".to_owned());
        } else {
            lines.push("Stock:   Out of Stock".to_owned());
        }
        assert(views(lines@) =~= table_single_lines(product@));
        join(&lines, "\n")
    }

    /// The row of a product in the product table.
    fn table_row_of(product: &Product) -> (r: String)
        ensures
            r@ == table_row(product@),
    {
        let mut row = align_left(product.asin.as_str(), 10, ' ');
        row.append("  ");
        row.append(align_right(price_column(product).as_str(), 12, ' ').as_str());
        row.append("  ");
        row.append(align_right(rating_column(product).as_str(), 8, ' ').as_str());
        row.append("  ");
        let prime = if product.is_prime {
            "Yes"
        } else {
            "No"
        };
        row.append(align_left(prime, 5, ' ').as_str());
        row.append("  ");
        row.append(shorten(product.title.as_str(), 50).as_str());
        row
    }

    /// The product table.
    pub fn table_products(&self, products: &[Product]) -> (r: String)
        ensures
            r@ == table_text(product_views(products@)),
    {
        let mut head = align_left("ASIN", 10, ' ');
        head.append("  ");
        head.append(align_left("Price", 12, ' ').as_str());
        head.append("  ");
        head.append(align_left("Rating", 8, ' ').as_str());
        head.append("  ");
        head.append(align_left("Prime", 5, ' ').as_str());
        head.append("  ");
        head.append("Title");
        let mut rule = repeat('-', 10);
        rule.append("  ");
        rule.append(repeat('-', 12).as_str());
        rule.append("  ");
        rule.append(repeat('-', 8).as_str());
        rule.append("  ");
        rule.append(repeat('-', 5).as_str());
        rule.append("  ");
        rule.append(repeat('-', 50).as_str());
        let mut lines: Vec<String> = Vec::new();
        lines.push(head);
        lines.push(rule);
        let mut i: usize = 0;
        while i < products.len()
            invariant
                i <= products.len(),
                lines@.len() == 2 + i,
                lines@[0]@ == table_head(),
                lines@[1]@ == table_rule(),
                forall|k: int| 0 <= k < i ==> (#[trigger] lines@[2 + k])@ == table_row(products@[k]@),
            decreases products.len() - i,
        {
            lines.push(Formatter::table_row_of(&products[i]));
            i = i + 1;
        }
        lines.push(String::new());
        let mut total = "Total: ".to_owned();
        total.append(number_text(products.len() as u64).as_str());
        total.append(" products");
        lines.push(total);
        proof {
            let expected = table_lines(product_views(products@));
            assert(views(lines@).len() == expected.len());
            assert forall|k: int| 0 <= k < expected.len() implies views(lines@)[k] == expected[k] by {
                if 2 <= k < 2 + products@.len() {
                    assert(lines@[2 + (k - 2)]@ == table_row(products@[k - 2]@));
                }
            }
            assert(views(lines@) =~= expected);
        }
        join(&lines, "\n")
    }

    /// One product in the Markdown view.
    pub fn markdown_single(&self, product: &Product) -> (r: String)
        ensures
            r@ == markdown_single_text(product@),
    {
        let mut lines: Vec<String> = Vec::new();
        lines.push(labelled("## ", product.title.as_str()));
        lines.push(String::new());
        lines.push(labelled("- **ASIN:** ", product.asin.as_str()));
        let mut link = labelled("- **URL:** [View on Amazon](", product.url.as_str());
        link.append(")");
        lines.push(link);
        if let Some(price) = &product.price {
            if price.is_hidden {
                lines.push("- **Price:** See price in cart".to_owned());
            } else {
                let mut line = labelled("- **Price:** ", price.currency.as_str());
                line.append(" ");
                line.append(price.current.to_fixed(2).as_str());
                if let Some(original) = price.original {
                    line.append(" ~~");
                    line.append(original.to_fixed(2).as_str());
                    line.append("~~");
                }
                lines.push(line);
            }
        }
        assert(views(lines@) =~= seq![
            "## "@ + product@.title,
            Seq::empty(),
            "- **ASIN:** "@ + product@.asin,
            "- **URL:** [View on Amazon]("@ + product@.url + ")"@,
        ] + markdown_price_lines(product@));
        if let Some(line) = rating_line("- **Rating:** ", product) {
            lines.push(line);
        }
        if let Some(brand) = &product.brand {
            lines.push(labelled("- **Brand:** ", brand.as_str()));
        }
        let mut badges: Vec<String> = Vec::new();
        if product.is_prime {
            badges.push("✓ Prime".to_owned());
        }
        if product.is_amazon_choice {
            badges.push("⭐ Amazon's Choice".to_owned());
        }
        assert(views(badges@) =~= markdown_badges(product@));
        if badges.len() > 0 {
            lines.push(labelled("- **Badges:** ", join(&badges, ", ").as_str()));
        }
        assert(views(lines@) =~= markdown_single_lines(product@));
        join(&lines, "\n")
    }

    /// The row of a product in the Markdown table.
    fn markdown_row_of(product: &Product) -> (r: String)
        ensures
            r@ == markdown_row(product@),
    {
        let mut row = labelled("| ", product.asin.as_str());
        row.append(" | ");
        row.append(price_column(product).as_str());
        row.append(" | ");
        row.append(rating_column(product).as_str());
        row.append(" | ");
        if product.is_prime {
            row.append("✓");
        } else {
            assert(row@ + Seq::<char>::empty() == row@);
        }
        row.append(" | [");
        row.append(shorten(product.title.as_str(), 40).as_str());
        row.append("](");
        row.append(product.url.as_str());
        row.append(") |");
        row
    }

    /// The Markdown table.
    pub fn markdown_products(&self, products: &[Product]) -> (r: String)
        ensures
            r@ == markdown_text(product_views(products@)),
    {
        let mut lines: Vec<String> = Vec::new();
        lines.push("| ASIN | Price | Rating | Prime | Title |".to_owned());
        lines.push("|------|-------|--------|-------|-------|".to_owned());
        let mut i: usize = 0;
        while i < products.len()
            invariant
                i <= products.len(),
                lines@.len() == 2 + i,
                lines@[0]@ == "| ASIN | Price | Rating | Prime | Title |"@,
                lines@[1]@ == "|------|-------|--------|-------|-------|"@,
                forall|k: int|
                    0 <= k < i ==> (#[trigger] lines@[2 + k])@ == markdown_row(products@[k]@),
            decreases products.len() - i,
        {
            lines.push(Formatter::markdown_row_of(&products[i]));
            i = i + 1;
        }
        lines.push(String::new());
        let mut total = "*".to_owned();
        total.append(number_text(products.len() as u64).as_str());
        total.append(" products found*");
        lines.push(total);
        proof {
            let expected = markdown_lines(product_views(products@));
            assert(views(lines@).len() == expected.len());
            assert forall|k: int| 0 <= k < expected.len() implies views(lines@)[k] == expected[k] by {
                if 2 <= k < 2 + products@.len() {
                    assert(lines@[2 + (k - 2)]@ == markdown_row(products@[k - 2]@));
                }
            }
            assert(views(lines@) =~= expected);
        }
        join(&lines, "\n")
    }

    /// The first line of every CSV output.
    pub fn csv_header(&self) -> (r: String)
        ensures
            r@ == csv_header_text(),
    {
        "asin,title,price,original_price,currency,rating,reviews,prime,sponsored,amazon_choice,in_stock,brand,url".to_owned()
    }

    /// A text as a CSV field: in double quotes, with its own double quotes
    /// doubled, where it holds a comma, a double quote or a line break.
    pub fn csv_escape(s: &str) -> (r: String)
        ensures
            r@ == csv_field(s@),
    {
        let chars = chars_of(s);
        let mut special = false;
        let mut i: usize = 0;
        while i < chars.len()
            invariant
                i <= chars.len(),
                special == exists|k: int|
                    0 <= k < i && (#[trigger] chars@[k] == ',' || chars@[k] == '"' || chars@[k]
                        == '\n'),
            decreases chars.len() - i,
        {
            let c = chars[i];
            if c == ',' || c == '"' || c == '\n' {
                special = true;
            }
            i = i + 1;
        }
        assert(special == needs_quotes(s@)) by {
            if needs_quotes(s@) {
                let c = if s@.contains(',') {
                    ','
                } else if s@.contains('"') {
                    '"'
                } else {
                    '\n'
                };
                let k = choose|k: int| 0 <= k < s@.len() && s@[k] == c;
                assert(chars@[k] == c);
            }
            if special {
                let k = choose|k: int|
                    0 <= k < chars@.len() && (#[trigger] chars@[k] == ',' || chars@[k] == '"'
                        || chars@[k] == '\n');
                assert(s@.contains(chars@[k]));
            }
        }
        if !special {
            return s.to_owned();
        }
        let mut out: Vec<char> = Vec::new();
        out.push('"');
        let mut j: usize = 0;
        assert(chars@.take(0) == Seq::<char>::empty());
        while j < chars.len()
            invariant
                j <= chars.len(),
                out@ == seq!['"'] + quotes_doubled(chars@.take(j as int)),
            decreases chars.len() - j,
        {
            let c = chars[j];
            proof {
                assert(chars@.take(j + 1).drop_last() == chars@.take(j as int));
                assert(chars@.take(j + 1).last() == c);
            }
            if c == '"' {
                out.push('"');
                out.push('"');
            } else {
                out.push(c);
            }
            assert(out@ == seq!['"'] + quotes_doubled(chars@.take(j + 1)));
            j = j + 1;
        }
        assert(chars@.take(chars@.len() as int) == chars@);
        out.push('"');
        assert(out@ == seq!['"'] + quotes_doubled(s@) + seq!['"']);
        string_of(out.as_slice())
    }

    /// The row of a product in the CSV output.
    fn csv_row_of(product: &Product) -> (r: String)
        ensures
            r@ == csv_row(product@),
    {
        let mut row = product.asin.clone();
        row.append(",");
        row.append(Formatter::csv_escape(product.title.as_str()).as_str());
        row.append(",");
        match &product.price {
            Some(price) => {
                if !price.is_hidden {
                    row.append(price.current.to_text().as_str());
                } else {
                    assert(row@ + Seq::<char>::empty() == row@);
                }
                row.append(",");
                match &price.original {
                    Some(original) => {
                        row.append(original.to_text().as_str());
                    },
                    None => {
                        assert(row@ + Seq::<char>::empty() == row@);
                    },
                }
                row.append(",");
                row.append(price.currency.as_str());
            },
            None => {
                assert(row@ + Seq::<char>::empty() == row@);
                row.append(",");
                assert(row@ + Seq::<char>::empty() == row@);
                row.append(",");
                assert(row@ + Seq::<char>::empty() == row@);
            },
        }
        row.append(",");
        match &product.rating {
            Some(rating) => {
                row.append(rating.stars.to_text().as_str());
                row.append(",");
                row.append(number_text(rating.review_count as u64).as_str());
            },
            None => {
                assert(row@ + Seq::<char>::empty() == row@);
                row.append(",");
                assert(row@ + Seq::<char>::empty() == row@);
            },
        }
        row.append(",");
        row.append(bool_name(product.is_prime));
        row.append(",");
        row.append(bool_name(product.is_sponsored));
        row.append(",");
        row.append(bool_name(product.is_amazon_choice));
        row.append(",");
        row.append(bool_name(product.in_stock));
        row.append(",");
        match &product.brand {
            Some(brand) => {
                row.append(Formatter::csv_escape(brand.as_str()).as_str());
            },
            None => {
                let empty = String::new();
                row.append(Formatter::csv_escape(empty.as_str()).as_str());
            },
        }
        row.append(",");
        row.append(product.url.as_str());
        row
    }

    /// The CSV output: the header and one row for each product.
    pub fn csv_products(&self, products: &[Product]) -> (r: String)
        ensures
            r@ == csv_text(product_views(products@)),
    {
        let mut lines: Vec<String> = Vec::new();
        lines.push(self.csv_header());
        let mut i: usize = 0;
        while i < products.len()
            invariant
                i <= products.len(),
                lines@.len() == 1 + i,
                lines@[0]@ == csv_header_text(),
                forall|k: int| 0 <= k < i ==> (#[trigger] lines@[1 + k])@ == csv_row(products@[k]@),
            decreases products.len() - i,
        {
            lines.push(Formatter::csv_row_of(&products[i]));
            i = i + 1;
        }
        proof {
            let expected = csv_lines(product_views(products@));
            assert(views(lines@).len() == expected.len());
            assert forall|k: int| 0 <= k < expected.len() implies views(lines@)[k] == expected[k] by {
                if 1 <= k {
                    assert(lines@[1 + (k - 1)]@ == csv_row(products@[k - 1]@));
                }
            }
            assert(views(lines@) =~= expected);
        }
        join(&lines, "\n")
    }
}

} // verus!
