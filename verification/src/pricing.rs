//! Cost model: which price list applies to a model identifier, what a usage
//! costs under it, and how a cost is written for the client.
//!
//! Money is kept in integers. A price is a number of micro-dollars per million
//! tokens, which makes the cost of a number of tokens a whole number of
//! pico-dollars (1e-12 dollar): no rounding happens inside the formula.
//! Rounding happens once, when a cost is written with three decimals.

use vstd::prelude::*;
use vstd::string::StringExecFns;

verus! {

/// Prices of one model family, each in micro-dollars per million tokens.
#[derive(Debug, Clone, Copy, PartialEq, Eq)]
pub struct ModelPricing {
    pub input_price: u64,
    pub output_price: u64,
    pub cache_write_price: u64,
    pub cache_read_price: u64,
}

/// The families the pricing table knows.
#[derive(Debug, Clone, Copy, PartialEq, Eq)]
pub enum ModelFamily {
    Sonnet,
    Haiku,
    Opus,
}

/// One entry of the pricing table: the text by which a model identifier is
/// recognised as one of a family, and the family's prices. A model is of the
/// family if the pattern occurs anywhere in its identifier; an empty pattern
/// occurs in every identifier.
#[derive(Debug, PartialEq, Eq)]
pub struct FamilyPricing {
    pub pattern: String,
    pub prices: ModelPricing,
}

/// A [`FamilyPricing`] as plain values.
pub struct FamilyPricingView {
    pub pattern: Seq<char>,
    pub prices: ModelPricing,
}

impl DeepView for FamilyPricing {
    type V = FamilyPricingView;

    open spec fn deep_view(&self) -> FamilyPricingView {
        FamilyPricingView { pattern: self.pattern@, prices: self.prices }
    }
}

impl Clone for FamilyPricing {
    fn clone(&self) -> (copy: FamilyPricing)
        ensures
            copy.deep_view() == self.deep_view(),
    {
        FamilyPricing { pattern: self.pattern.clone(), prices: self.prices }
    }
}

/// The pricing table: one entry per known model family.
#[derive(Debug, PartialEq, Eq)]
pub struct PricingTable {
    pub sonnet: FamilyPricing,
    pub haiku: FamilyPricing,
    pub opus: FamilyPricing,
}

/// A [`PricingTable`] as plain values.
pub struct PricingTableView {
    pub sonnet: FamilyPricingView,
    pub haiku: FamilyPricingView,
    pub opus: FamilyPricingView,
}

impl DeepView for PricingTable {
    type V = PricingTableView;

    open spec fn deep_view(&self) -> PricingTableView {
        PricingTableView {
            sonnet: self.sonnet.deep_view(),
            haiku: self.haiku.deep_view(),
            opus: self.opus.deep_view(),
        }
    }
}

impl Clone for PricingTable {
    fn clone(&self) -> (copy: PricingTable)
        ensures
            copy.deep_view() == self.deep_view(),
    {
        PricingTable {
            sonnet: self.sonnet.clone(),
            haiku: self.haiku.clone(),
            opus: self.opus.clone(),
        }
    }
}

/// Process-wide configuration, built once at start and only read afterwards.
#[derive(Debug, PartialEq, Eq)]
pub struct Config {
    pub pricing: PricingTable,
    /// The model identifier under which usage is priced while a stream
    /// runs.
    pub latest_model: String,
}

/// A [`Config`] as plain values.
pub struct ConfigView {
    pub pricing: PricingTableView,
    pub latest_model: Seq<char>,
}

impl DeepView for Config {
    type V = ConfigView;

    open spec fn deep_view(&self) -> ConfigView {
        ConfigView { pricing: self.pricing.deep_view(), latest_model: self.latest_model@ }
    }
}

impl Clone for Config {
    fn clone(&self) -> (copy: Config)
        ensures
            copy.deep_view() == self.deep_view(),
    {
        Config { pricing: self.pricing.clone(), latest_model: self.latest_model.clone() }
    }
}

/// `needle` stands in `hay` starting at position `i`.
pub open spec fn occurs_at(hay: Seq<char>, needle: Seq<char>, i: int) -> bool {
    &&& 0 <= i
    &&& i + needle.len() <= hay.len()
    &&& hay.subrange(i, i + needle.len()) == needle
}

/// `needle` is a contiguous part of `hay`.
pub open spec fn has_substring(hay: Seq<char>, needle: Seq<char>) -> bool {
    exists|i: int| occurs_at(hay, needle, i)
}

/// The family whose prices apply to `model`: the first family, in the order
/// sonnet, haiku, opus, whose pattern occurs in the identifier; sonnet when
/// none does.
pub open spec fn family_of(model: Seq<char>, table: PricingTableView) -> ModelFamily {
    if has_substring(model, table.sonnet.pattern) {
        ModelFamily::Sonnet
    } else if has_substring(model, table.haiku.pattern) {
        ModelFamily::Haiku
    } else if has_substring(model, table.opus.pattern) {
        ModelFamily::Opus
    } else {
        ModelFamily::Sonnet
    }
}

/// The price list of a family.
pub open spec fn prices_of(table: PricingTableView, family: ModelFamily) -> ModelPricing {
    match family {
        ModelFamily::Sonnet => table.sonnet.prices,
        ModelFamily::Haiku => table.haiku.prices,
        ModelFamily::Opus => table.opus.prices,
    }
}

/// Cost in pico-dollars of the four token counts under one price list.
pub open spec fn cost_under(
    prices: ModelPricing,
    input_tokens: nat,
    output_tokens: nat,
    cache_write_tokens: nat,
    cache_read_tokens: nat,
) -> nat {
    input_tokens * prices.input_price as nat + output_tokens * prices.output_price as nat
        + cache_write_tokens * prices.cache_write_price as nat + cache_read_tokens
        * prices.cache_read_price as nat
}

/// Cost in pico-dollars of a usage of `model`.
pub open spec fn cost_spec(
    model: Seq<char>,
    input_tokens: nat,
    output_tokens: nat,
    cache_write_tokens: nat,
    cache_read_tokens: nat,
    table: PricingTableView,
) -> nat {
    cost_under(
        prices_of(table, family_of(model, table)),
        input_tokens,
        output_tokens,
        cache_write_tokens,
        cache_read_tokens,
    )
}

fn chars_of(s: &str) -> (v: Vec<char>)
    ensures
        v@ == s@,
{
    let n: usize = s.unicode_len();
    let mut v: Vec<char> = Vec::new();
    let mut i: usize = 0;
    while i < n
        invariant
            n == s@.len(),
            i <= n,
            v@ == s@.subrange(0, i as int),
        decreases n - i,
    {
        v.push(s.get_char(i));
        i = i + 1;
    }
    v
}

fn matches_at(hay: &Vec<char>, needle: &Vec<char>, start: usize) -> (found: bool)
    requires
        start + needle.len() <= hay.len(),
    ensures
        found == occurs_at(hay@, needle@, start as int),
{
    let mut k: usize = 0;
    while k < needle.len()
        invariant
            start + needle.len() <= hay.len(),
            k <= needle.len(),
            forall|j: int| 0 <= j < k ==> hay@[start + j] == needle@[j],
        decreases needle.len() - k,
    {
        if hay[start + k] != needle[k] {
            assert(hay@.subrange(start as int, start + needle.len())[k as int] != needle@[k as int]);
            return false;
        }
        k = k + 1;
    }
    assert(hay@.subrange(start as int, start + needle.len()) =~= needle@);
    true
}

/// Whether `needle` is a contiguous part of `hay`.
pub fn contains_pattern(hay: &str, needle: &str) -> (found: bool)
    ensures
        found == has_substring(hay@, needle@),
{
    let h: Vec<char> = chars_of(hay);
    let p: Vec<char> = chars_of(needle);
    if p.len() == 0 {
        assert(occurs_at(hay@, needle@, 0)) by {
            assert(hay@.subrange(0, 0) =~= needle@);
        }
        return true;
    }
    if p.len() > h.len() {
        return false;
    }
    let last: usize = h.len() - p.len();
    let mut i: usize = 0;
    while i <= last
        invariant
            h@ == hay@,
            p@ == needle@,
            p.len() <= h.len(),
            0 < p.len(),
            last == h.len() - p.len(),
            i <= last + 1,
            forall|j: int| 0 <= j < i ==> !occurs_at(hay@, needle@, j),
        decreases last + 1 - i,
    {
        if matches_at(&h, &p, i) {
            return true;
        }
        i = i + 1;
    }
    false
}

/// Resolves a model identifier to the family whose prices apply.
///
/// An identifier that names no known family is priced as sonnet: reporting a
/// cost never fails on an unknown model.
pub fn resolve_family(model: &str, table: &PricingTable) -> (family: ModelFamily)
    ensures
        family == family_of(model@, table.deep_view()),
{
    if contains_pattern(model, table.sonnet.pattern.as_str()) {
        ModelFamily::Sonnet
    } else if contains_pattern(model, table.haiku.pattern.as_str()) {
        ModelFamily::Haiku
    } else if contains_pattern(model, table.opus.pattern.as_str()) {
        ModelFamily::Opus
    } else {
        ModelFamily::Sonnet
    }
}

impl PricingTable {
    /// The price list of one family.
    pub fn prices(&self, family: ModelFamily) -> (prices: ModelPricing)
        ensures
            prices == prices_of(self.deep_view(), family),
    {
        match family {
            ModelFamily::Sonnet => self.sonnet.prices,
            ModelFamily::Haiku => self.haiku.prices,
            ModelFamily::Opus => self.opus.prices,
        }
    }
}

proof fn lemma_product_fits(tokens: u32, price: u64)
    ensures
        tokens as nat * price as nat <= 0xffff_ffff * 0xffff_ffff_ffff_ffff,
{
    assert(tokens as nat * price as nat <= 0xffff_ffff * 0xffff_ffff_ffff_ffff) by (nonlinear_arith)
        requires
            tokens <= 0xffff_ffff,
            price <= 0xffff_ffff_ffff_ffff,
    ;
}

fn category_cost(tokens: u32, price: u64) -> (cost: u128)
    ensures
        cost == tokens as nat * price as nat,
        cost <= 0xffff_ffff * 0xffff_ffff_ffff_ffff,
{
    proof {
        lemma_product_fits(tokens, price);
    }
    (tokens as u128) * (price as u128)
}

/// Cost in pico-dollars of the given token counts for `model`.
///
/// The sum, over the four token categories, of the count times the price per
/// million tokens of the family that `model` resolves to. Nothing is rounded.
pub fn calculate_anthropic_cost(
    model: &str,
    input_tokens: u32,
    output_tokens: u32,
    cache_write_tokens: u32,
    cache_read_tokens: u32,
    config: &Config,
) -> (cost: u128)
    ensures
        cost == cost_spec(
            model@,
            input_tokens as nat,
            output_tokens as nat,
            cache_write_tokens as nat,
            cache_read_tokens as nat,
            config.pricing.deep_view(),
        ),
{
    let prices: ModelPricing = config.pricing.prices(resolve_family(model, &config.pricing));
    let input_cost: u128 = category_cost(input_tokens, prices.input_price);
    let output_cost: u128 = category_cost(output_tokens, prices.output_price);
    let cache_write_cost: u128 = category_cost(cache_write_tokens, prices.cache_write_price);
    let cache_read_cost: u128 = category_cost(cache_read_tokens, prices.cache_read_price);
    input_cost + output_cost + cache_write_cost + cache_read_cost
}

/// The character that writes the digit `d`.
pub open spec fn digit_char(d: nat) -> char {
    if d == 0 {
        '0'
    } else if d == 1 {
        '1'
    } else if d == 2 {
        '2'
    } else if d == 3 {
        '3'
    } else if d == 4 {
        '4'
    } else if d == 5 {
        '5'
    } else if d == 6 {
        '6'
    } else if d == 7 {
        '7'
    } else if d == 8 {
        '8'
    } else {
        '9'
    }
}

/// `n` written in base ten, without leading zeros.
pub open spec fn decimal(n: nat) -> Seq<char>
    decreases n,
{
    if n < 10 {
        seq![digit_char(n)]
    } else {
        decimal(n / 10).push(digit_char(n % 10))
    }
}

/// A cost in pico-dollars, as thousandths of a dollar: the nearest one, a
/// half going up.
pub open spec fn thousandths_of(cost: nat) -> nat {
    if cost % 1_000_000_000 >= 500_000_000 {
        cost / 1_000_000_000 + 1
    } else {
        cost / 1_000_000_000
    }
}

/// How a cost is written: a dollar sign, the whole dollars, a point and
/// exactly three decimals.
pub open spec fn format_cost_spec(cost: nat) -> Seq<char> {
    let t = thousandths_of(cost);
    seq!['$'] + decimal(t / 1000) + seq![
        '.',
        digit_char(t / 100 % 10),
        digit_char(t / 10 % 10),
        digit_char(t % 10),
    ]
}

fn digit_str(d: u8) -> (s: &'static str)
    requires
        d < 10,
    ensures
        s@ == seq![digit_char(d as nat)],
{
    proof {
        reveal_strlit("0");
        reveal_strlit("1");
        reveal_strlit("2");
        reveal_strlit("3");
        reveal_strlit("4");
        reveal_strlit("5");
        reveal_strlit("6");
        reveal_strlit("7");
        reveal_strlit("8");
        reveal_strlit("9");
    }
    let s: &'static str = if d == 0 {
        "0"
    } else if d == 1 {
        "1"
    } else if d == 2 {
        "2"
    } else if d == 3 {
        "3"
    } else if d == 4 {
        "4"
    } else if d == 5 {
        "5"
    } else if d == 6 {
        "6"
    } else if d == 7 {
        "7"
    } else if d == 8 {
        "8"
    } else {
        "9"
    };
    assert(s@ =~= seq![digit_char(d as nat)]);
    s
}

fn push_decimal(out: &mut String, n: u128)
    ensures
        final(out)@ == old(out)@ + decimal(n as nat),
    decreases n,
{
    if n >= 10 {
        push_decimal(out, n / 10);
    }
    let d: u8 = (n % 10) as u8;
    out.append(digit_str(d));
    assert(out@ =~= old(out)@ + decimal(n as nat));
}

/// Writes a cost in pico-dollars as dollars with three decimals, such as
/// `$1.500`. This is the only place where a cost is rounded.
pub fn format_cost(cost: u128) -> (text: String)
    ensures
        text@ == format_cost_spec(cost as nat),
{
    let whole: u128 = cost / 1_000_000_000;
    let t: u128 = if cost % 1_000_000_000 >= 500_000_000 {
        whole + 1
    } else {
        whole
    };
    proof {
        reveal_strlit("$");
        reveal_strlit(".");
    }
    let mut text: String = String::from_str("$");
    push_decimal(&mut text, t / 1000);
    text.append(".");
    text.append(digit_str((t / 100 % 10) as u8));
    text.append(digit_str((t / 10 % 10) as u8));
    text.append(digit_str((t % 10) as u8));
    assert(text@ =~= format_cost_spec(cost as nat));
    text
}

/// No tokens cost nothing, whatever the model and the prices.
pub proof fn lemma_no_tokens_cost_nothing(model: Seq<char>, table: PricingTableView)
    ensures
        cost_spec(model, 0, 0, 0, 0, table) == 0,
{
}

proof fn lemma_product_is_monotone(fewer: nat, more: nat, price: nat)
    requires
        fewer <= more,
    ensures
        fewer * price <= more * price,
{
    assert(fewer * price <= more * price) by (nonlinear_arith)
        requires
            fewer <= more,
    ;
}

/// The cost never decreases when token counts grow: with the model and the
/// prices fixed, raising any of the four counts, alone or together with
/// others, gives a cost at least as high.
pub proof fn lemma_cost_is_monotone(
    model: Seq<char>,
    table: PricingTableView,
    input_tokens: nat,
    output_tokens: nat,
    cache_write_tokens: nat,
    cache_read_tokens: nat,
    more_input_tokens: nat,
    more_output_tokens: nat,
    more_cache_write_tokens: nat,
    more_cache_read_tokens: nat,
)
    requires
        input_tokens <= more_input_tokens,
        output_tokens <= more_output_tokens,
        cache_write_tokens <= more_cache_write_tokens,
        cache_read_tokens <= more_cache_read_tokens,
    ensures
        cost_spec(
            model,
            input_tokens,
            output_tokens,
            cache_write_tokens,
            cache_read_tokens,
            table,
        ) <= cost_spec(
            model,
            more_input_tokens,
            more_output_tokens,
            more_cache_write_tokens,
            more_cache_read_tokens,
            table,
        ),
{
    let prices = prices_of(table, family_of(model, table));
    lemma_product_is_monotone(input_tokens, more_input_tokens, prices.input_price as nat);
    lemma_product_is_monotone(output_tokens, more_output_tokens, prices.output_price as nat);
    lemma_product_is_monotone(
        cache_write_tokens,
        more_cache_write_tokens,
        prices.cache_write_price as nat,
    );
    lemma_product_is_monotone(
        cache_read_tokens,
        more_cache_read_tokens,
        prices.cache_read_price as nat,
    );
}

/// The digit that a character writes; zero for a character that writes none.
pub open spec fn digit_value(c: char) -> nat {
    if c == '1' {
        1
    } else if c == '2' {
        2
    } else if c == '3' {
        3
    } else if c == '4' {
        4
    } else if c == '5' {
        5
    } else if c == '6' {
        6
    } else if c == '7' {
        7
    } else if c == '8' {
        8
    } else if c == '9' {
        9
    } else {
        0
    }
}

/// The number that a text of digits writes in base ten.
pub open spec fn decimal_value(digits: Seq<char>) -> nat
    decreases digits.len(),
{
    if digits.len() == 0 {
        0
    } else {
        decimal_value(digits.drop_last()) * 10 + digit_value(digits.last())
    }
}

/// A number written in base ten reads back as itself. It has at least one
/// digit, and no leading zero unless it is zero.
pub proof fn lemma_decimal_reads_back(n: nat)
    ensures
        decimal_value(decimal(n)) == n,
        decimal(n).len() >= 1,
        n > 0 ==> decimal(n)[0] != '0',
    decreases n,
{
    if n < 10 {
        assert(decimal(n).drop_last() =~= Seq::<char>::empty());
        assert(decimal_value(decimal(n).drop_last()) == 0);
    } else {
        lemma_decimal_reads_back(n / 10);
        assert(decimal(n).drop_last() =~= decimal(n / 10));
        assert(decimal(n)[0] == decimal(n / 10)[0]);
    }
}

/// A cost is written as the thousandth of a dollar nearest to it: what is
/// written differs from the cost by half a thousandth at most, and by less
/// when it lies below the cost.
pub proof fn lemma_thousandths_is_nearest(cost: nat)
    ensures
        thousandths_of(cost) * 1_000_000_000 <= cost + 500_000_000,
        cost < thousandths_of(cost) * 1_000_000_000 + 500_000_000,
{
}

} // verus!
