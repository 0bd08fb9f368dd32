//! The exposition text: ten metric lines in a fixed order.
//!
//! The caller derives the ten values from a pair of cached prices and writes each of
//! them out as text; this module lays the lines out. A gram price is the ounce price
//! divided by 31.1035. The carat variants exist for gold only and scale a price by
//! 0.9167 (22k), 0.8750 (21k) and 0.7500 (18k).

use vstd::prelude::*;
use vstd::string::*;

verus! {

/// The ten values of one exposition, each already written out as text.
pub struct MetricValues {
    /// Gold, per ounce.
    pub gold_oz: String,
    /// Gold at 22 carat, per ounce.
    pub gold_oz_22k: String,
    /// Gold at 21 carat, per ounce.
    pub gold_oz_21k: String,
    /// Gold at 18 carat, per ounce.
    pub gold_oz_18k: String,
    /// Gold, per gram.
    pub gold_gram: String,
    /// Gold at 22 carat, per gram.
    pub gold_gram_22k: String,
    /// Gold at 21 carat, per gram.
    pub gold_gram_21k: String,
    /// Gold at 18 carat, per gram.
    pub gold_gram_18k: String,
    /// Silver, per gram.
    pub silver_gram: String,
    /// Silver, per ounce.
    pub silver_oz: String,
}

/// One line of the exposition: the name, a space, the value, a line feed.
pub open spec fn metric_line(name: Seq<char>, value: Seq<char>) -> Seq<char> {
    name + seq![' '] + value + seq!['\n']
}

/// The exposition of `values`: one line per metric, gold before silver.
pub open spec fn exposition(values: MetricValues) -> Seq<char> {
    metric_line("gold_oz_price"@, values.gold_oz@)
        + metric_line("gold_oz_22k_price"@, values.gold_oz_22k@)
        + metric_line("gold_oz_21k_price"@, values.gold_oz_21k@)
        + metric_line("gold_oz_18k_price"@, values.gold_oz_18k@)
        + metric_line("gold_gram_price"@, values.gold_gram@)
        + metric_line("gold_gram_22k_price"@, values.gold_gram_22k@)
        + metric_line("gold_gram_21k_price"@, values.gold_gram_21k@)
        + metric_line("gold_gram_18k_price"@, values.gold_gram_18k@)
        + metric_line("silver_gram_price"@, values.silver_gram@)
        + metric_line("silver_oz_price"@, values.silver_oz@)
}

/// Appends the line of one metric to `text`.
fn push_line(text: &mut String, name: &str, value: &str)
    ensures
        final(text)@ == old(text)@ + metric_line(name@, value@),
{
    proof {
        reveal_strlit(" ");
        reveal_strlit("\n");
    }
    text.append(name);
    text.append(" ");
    text.append(value);
    text.append("\n");
    assert(" "@ == seq![' ']);
    assert("\n"@ == seq!['\n']);
}

/// Renders the exposition of `values`.
pub fn generate_metrics(values: &MetricValues) -> (text: String)
    ensures
        text@ == exposition(*values),
{
    let mut text = String::new();
    push_line(&mut text, "gold_oz_price", values.gold_oz.as_str());
    push_line(&mut text, "gold_oz_22k_price", values.gold_oz_22k.as_str());
    push_line(&mut text, "gold_oz_21k_price", values.gold_oz_21k.as_str());
    push_line(&mut text, "gold_oz_18k_price", values.gold_oz_18k.as_str());
    push_line(&mut text, "gold_gram_price", values.gold_gram.as_str());
    push_line(&mut text, "gold_gram_22k_price", values.gold_gram_22k.as_str());
    push_line(&mut text, "gold_gram_21k_price", values.gold_gram_21k.as_str());
    push_line(&mut text, "gold_gram_18k_price", values.gold_gram_18k.as_str());
    push_line(&mut text, "silver_gram_price", values.silver_gram.as_str());
    push_line(&mut text, "silver_oz_price", values.silver_oz.as_str());
    text
}

} // verus!
