//! Grand Exchange prices of Old School RuneScape items: the records the price
//! service answers with, the requests for it, and what the bot shows of them.

use vstd::prelude::*;
use vstd::utf8::encode_utf8;
use crate::text::{before_first, removed, remove_char, replace_char, replaced, text_before};

verus! {

/// The latest price of an item.
#[derive(Debug, PartialEq, Eq)]
pub struct RSItemPrice {
    pub item: String,
    pub price: u64,
    pub volume: u64,
}

/// When a price was taken: a date text, or milliseconds since the epoch.
#[derive(Debug, PartialEq, Eq)]
pub enum TimeStampValue {
    String(String),
    Number(u64),
}

/// The price history of an item.
#[derive(Debug, PartialEq, Eq)]
pub struct RSItemPriceHistory {
    pub item: String,
    pub history: Vec<RSPrice>,
}

/// A price at a moment.
#[derive(Debug, PartialEq, Eq)]
pub struct RSPrice {
    pub timestamp: TimeStampValue,
    pub price: u64,
    pub volume: u64,
}

/// The data of a price history chart: the dates, prices and volumes of the
/// last days, and the title.
#[derive(Debug, PartialEq, Eq)]
pub struct ChartData {
    pub labels: Vec<String>,
    pub prices: Vec<u64>,
    pub volumes: Vec<u64>,
    pub title: String,
}

/// An item name as the wiki names its image: spaces and hyphens become
/// underscores, apostrophes go.
pub open spec fn wiki_image_name(item: Seq<char>) -> Seq<char> {
    replaced(removed(replaced(item, ' ', '_'), '\''), '-', '_')
}

/// The address of an item's image on the wiki.
pub fn wiki_image_url(item: &str) -> (res: String)
    ensures
        res@ == "https://oldschool.runescape.wiki/images/"@ + wiki_image_name(item@) + ".png"@,
{
    let spaced = replace_char(item, ' ', '_');
    let quoted = remove_char(spaced.as_str(), '\'');
    let name = replace_char(quoted.as_str(), '-', '_');
    let mut res = String::from_str("https://oldschool.runescape.wiki/images/");
    res.append(name.as_str());
    res.append(".png");
    res
}

/// The item to look up: the one an alias row names, when the alias was found
/// and names one, or else the text as given.
pub fn resolve_alias(item: String, alias_row: Option<Option<String>>) -> (res: String)
    ensures
        res@ == (match alias_row {
            Some(Some(aliased)) => aliased@,
            _ => item@,
        }),
{
    match alias_row {
        Some(Some(aliased)) => aliased,
        _ => item,
    }
}

/// A decimal numeral with a comma between each group of three digits from
/// the right.
pub open spec fn grouped_thousands(digits: Seq<char>) -> Seq<char>
    decreases digits.len(),
{
    if digits.len() <= 3 {
        digits
    } else {
        grouped_thousands(digits.take(digits.len() - 3)) + ","@ + digits.skip(digits.len() - 3)
    }
}

/// `separate_with_commas` of the thousands crate on a `u64`: its decimal
/// numeral with a comma placed after every digit that has a positive multiple
/// of three digits after it.
#[verifier::external_body]
fn separate_with_commas(n: u64) -> (res: String)
    ensures
        res@ == grouped_thousands(crate::text::decimal(n as nat)),
{
    thousands::Separable::separate_with_commas(&n)
}

/// A price as the bot shows it: grouped by commas, in gold pieces.
pub fn price_text(price: u64) -> (res: String)
    ensures
        res@ == grouped_thousands(crate::text::decimal(price as nat)) + " gp"@,
{
    let mut res = separate_with_commas(price);
    res.append(" gp");
    res
}

/// A volume as the bot shows it: grouped by commas.
pub fn volume_text(volume: u64) -> (res: String)
    ensures
        res@ == grouped_thousands(crate::text::decimal(volume as nat)),
{
    separate_with_commas(volume)
}

/// Whether a byte is left as it is in a URL: an ASCII letter or digit, `-`,
/// `.`, `_` or `~`.
pub open spec fn url_safe_byte(b: u8) -> bool {
    (0x30 <= b <= 0x39) || (0x41 <= b <= 0x5a) || (0x61 <= b <= 0x7a) || b == 0x2d || b == 0x2e || b == 0x5f
        || b == 0x7e
}

/// An upper case hex digit.
pub open spec fn hex_digit(d: u8) -> char {
    if d < 10 { ((d + 0x30) as u8) as char } else { ((d + 0x37) as u8) as char }
}

/// Bytes percent-encoded: each safe byte as its character, each other byte
/// as `%` and two upper case hex digits.
pub open spec fn percent_encoded(bytes: Seq<u8>) -> Seq<char>
    decreases bytes.len(),
{
    if bytes.len() == 0 {
        Seq::empty()
    } else {
        let b = bytes.last();
        percent_encoded(bytes.drop_last()) + if url_safe_byte(b) {
            seq![b as char]
        } else {
            seq!['%', hex_digit(b / 16), hex_digit(b % 16)]
        }
    }
}

/// `urlencoding::encode`: percent-encodes every byte of the UTF-8 text
/// except ASCII letters and digits, `-`, `.`, `_` and `~`.
#[verifier::external_body]
fn url_encode(text: &str) -> (res: String)
    ensures
        res@ == percent_encoded(encode_utf8(text@)),
{
    urlencoding::encode(text).into_owned()
}

/// The request path for the latest price of an item.
pub fn price_path(item_name: &str) -> (res: String)
    ensures
        res@ == "/exchange/history/osrs/latest?name="@ + percent_encoded(encode_utf8(item_name@)) + "&lang=en"@,
{
    let encoded = url_encode(item_name);
    let mut res = String::from_str("/exchange/history/osrs/latest?name=");
    res.append(encoded.as_str());
    res.append("&lang=en");
    res
}

/// The request path for the price history of an item over the last 90 days.
pub fn price_history_path(item_name: &str) -> (res: String)
    ensures
        res@ == "/exchange/history/osrs/last90d?name="@ + percent_encoded(encode_utf8(item_name@)) + "&lang=en"@,
{
    let encoded = url_encode(item_name);
    let mut res = String::from_str("/exchange/history/osrs/last90d?name=");
    res.append(encoded.as_str());
    res.append("&lang=en");
    res
}

/// The latest price from the first entry of the service's answer (item name
/// to price); `None` when the answer is empty.
pub fn item_price_from_entry(entry: Option<(String, RSPrice)>) -> (res: Option<RSItemPrice>)
    ensures
        entry is None <==> res is None,
        entry matches Some(e) ==> res matches Some(p) && p.item@ == e.0@ && p.price == e.1.price && p.volume
            == e.1.volume,
{
    match entry {
        Some((item, price_data)) => Some(RSItemPrice { item, price: price_data.price, volume: price_data.volume }),
        None => None,
    }
}

/// The price history from the first entry of the service's answer (item
/// name to prices); `None` when the answer is empty.
pub fn price_history_from_entry(entry: Option<(String, Vec<RSPrice>)>) -> (res: Option<RSItemPriceHistory>)
    ensures
        entry is None <==> res is None,
        entry matches Some(e) ==> res matches Some(h) && h.item@ == e.0@ && h.history@ == e.1@,
{
    match entry {
        Some((item, history)) => Some(RSItemPriceHistory { item, history }),
        None => None,
    }
}

/// What chrono's `DateTime::<Utc>::from_timestamp_millis` followed by
/// `format(pattern)` writes for a moment, if the moment is in chrono's range.
pub uninterp spec fn formatted_utc_millis(millis: int, pattern: Seq<char>) -> Option<Seq<char>>;

/// chrono's `DateTime::from_timestamp_millis` (UTC), written with
/// `format(pattern)`; `None` when the moment is out of chrono's range. Only the
/// name `formatted_utc_millis` is stated of the result. The pattern is the
/// month-and-day one: chrono's `to_string` panics on an invalid pattern, and
/// this one is valid.
#[verifier::external_body]
fn format_utc_millis(millis: i64, pattern: &str) -> (res: Option<String>)
    requires
        pattern@ == "%m-%d"@,
    ensures
        res matches Some(s) ==> formatted_utc_millis(millis as int, pattern@) == Some(s@),
        res is None ==> formatted_utc_millis(millis as int, pattern@) is None,
{
    match chrono::DateTime::from_timestamp_millis(millis) {
        Some(moment) => Some(moment.format(pattern).to_string()),
        None => None,
    }
}

/// The chart label of a moment: the date part (before `T`) of a date text,
/// or the month and day (`%m-%d`) of milliseconds taken as an `i64`.
pub open spec fn chart_label(timestamp: TimeStampValue) -> Option<Seq<char>> {
    match timestamp {
        TimeStampValue::String(s) => Some(before_first(s@, 'T')),
        TimeStampValue::Number(n) => formatted_utc_millis((n as i64) as int, "%m-%d"@),
    }
}

/// The last `count` prices of a history, in order (all of them when there are fewer).
pub open spec fn recent_prices(history: Seq<RSPrice>, count: int) -> Seq<RSPrice> {
    if history.len() <= count { history } else { history.skip(history.len() - count) }
}

/// Whether every price of a stretch has a chart label.
pub open spec fn labels_defined(prices: Seq<RSPrice>) -> bool {
    forall|i: int| 0 <= i < prices.len() ==> (#[trigger] chart_label(prices[i].timestamp)) is Some
}

/// The chart title of an item: underscores and hyphens read as spaces.
pub open spec fn chart_title(item_name: Seq<char>) -> Seq<char> {
    replaced(replaced(item_name, '_', ' '), '-', ' ') + " Price History"@
}

/// Whether `chart` is the chart of the last `count` prices of `history` for `item_name`.
pub open spec fn is_chart_of(chart: ChartData, history: Seq<RSPrice>, count: int, item_name: Seq<char>) -> bool {
    let recent = recent_prices(history, count);
    &&& chart.labels@.len() == recent.len()
    &&& forall|i: int| 0 <= i < recent.len() ==> chart_label(recent[i].timestamp) == Some(#[trigger] chart.labels@[i]@)
    &&& chart.prices@ == recent.map_values(|p: RSPrice| p.price)
    &&& chart.volumes@ == recent.map_values(|p: RSPrice| p.volume)
    &&& chart.title@ == chart_title(item_name)
}

/// The label of a moment.
fn label_text(timestamp: &TimeStampValue) -> (res: Option<String>)
    ensures
        res matches Some(s) ==> chart_label(*timestamp) == Some(s@),
        res is None ==> chart_label(*timestamp) is None,
{
    match timestamp {
        TimeStampValue::String(s) => Some(text_before(s.as_str(), 'T')),
        TimeStampValue::Number(n) => format_utc_millis(*n as i64, "%m-%d"),
    }
}

/// The index where the last `time_length` prices of a history of `n` begin.
fn recent_start(n: usize, time_length: u16) -> (start: usize)
    ensures
        start <= n,
        start == n - (if n <= time_length as usize { n as int } else { time_length as int }),
{
    if n <= time_length as usize { 0 } else { n - time_length as usize }
}

/// Whether every one of the last `time_length` prices of `history` has a chart label.
pub fn labels_available(history: &Vec<RSPrice>, time_length: u16) -> (res: bool)
    ensures
        res == labels_defined(recent_prices(history@, time_length as int)),
{
    let n = history.len();
    let start = recent_start(n, time_length);
    let ghost recent = recent_prices(history@, time_length as int);
    assert(recent =~= history@.subrange(start as int, n as int));
    let mut i: usize = start;
    while i < n
        invariant
            n == history@.len(),
            start <= i <= n,
            recent == history@.subrange(start as int, n as int),
            recent == recent_prices(history@, time_length as int),
            forall|j: int| 0 <= j < i - start ==> (#[trigger] chart_label(recent[j].timestamp)) is Some,
        decreases n - i,
    {
        assert(recent[(i - start) as int] == history@[i as int]);
        if label_text(&history[i].timestamp).is_none() {
            assert(chart_label(recent[(i - start) as int].timestamp) is None);
            assert(!labels_defined(recent));
            return false;
        }
        i = i + 1;
    }
    true
}

/// The chart of the last `time_length` prices of `history`, or `None` when a
/// moment among them is out of chrono's range.
fn build_chart(history: &Vec<RSPrice>, time_length: u16, item_name: &str) -> (res: Option<ChartData>)
    ensures
        res is Some <==> labels_defined(recent_prices(history@, time_length as int)),
        res matches Some(chart) ==> is_chart_of(chart, history@, time_length as int, item_name@),
{
    let n = history.len();
    let start = recent_start(n, time_length);
    let ghost recent = recent_prices(history@, time_length as int);
    assert(recent =~= history@.subrange(start as int, n as int));
    let mut labels: Vec<String> = Vec::new();
    let mut prices: Vec<u64> = Vec::new();
    let mut volumes: Vec<u64> = Vec::new();
    let mut i: usize = start;
    while i < n
        invariant
            n == history@.len(),
            start <= i <= n,
            recent == history@.subrange(start as int, n as int),
            recent == recent_prices(history@, time_length as int),
            labels@.len() == i - start,
            forall|j: int| 0 <= j < i - start ==> chart_label(recent[j].timestamp) == Some(#[trigger] labels@[j]@),
            prices@ == recent.take(i - start).map_values(|p: RSPrice| p.price),
            volumes@ == recent.take(i - start).map_values(|p: RSPrice| p.volume),
        decreases n - i,
    {
        let price = &history[i];
        assert(recent[(i - start) as int] == history@[i as int]);
        match label_text(&price.timestamp) {
            Some(label) => labels.push(label),
            None => {
                assert(chart_label(recent[(i - start) as int].timestamp) is None);
                assert(!labels_defined(recent));
                return None;
            },
        }
        prices.push(price.price);
        volumes.push(price.volume);
        assert(recent.take(i + 1 - start) =~= recent.take(i - start).push(recent[(i - start) as int]));
        assert(prices@ =~= recent.take(i + 1 - start).map_values(|p: RSPrice| p.price));
        assert(volumes@ =~= recent.take(i + 1 - start).map_values(|p: RSPrice| p.volume));
        i = i + 1;
    }
    assert(recent.take(n - start) =~= recent);
    let spaced = replace_char(item_name, '_', ' ');
    let mut title = replace_char(spaced.as_str(), '-', ' ');
    title.append(" Price History");
    let chart = ChartData { labels, prices, volumes, title };
    assert forall|j: int| 0 <= j < recent.len() implies (#[trigger] chart_label(recent[j].timestamp)) is Some by {
        assert(chart_label(recent[j].timestamp) == Some(chart.labels@[j]@));
    }
    Some(chart)
}

/// A character as a JSON string writes it: `"` and `\` escaped, the control
/// characters backspace, tab, line feed, form feed and carriage return by
/// their letter, other control characters as `\u00` and two lower case hex
/// digits, everything else as it is.
pub open spec fn json_char(c: char) -> Seq<char> {
    if c == '"' {
        seq!['\\', '"']
    } else if c == '\\' {
        seq!['\\', '\\']
    } else if c == '\u{8}' {
        seq!['\\', 'b']
    } else if c == '\t' {
        seq!['\\', 't']
    } else if c == '\n' {
        seq!['\\', 'n']
    } else if c == '\u{c}' {
        seq!['\\', 'f']
    } else if c == '\r' {
        seq!['\\', 'r']
    } else if (c as int) < 0x20 {
        seq!['\\', 'u', '0', '0', lower_hex_digit((c as int) / 16), lower_hex_digit((c as int) % 16)]
    } else {
        seq![c]
    }
}

/// A lower case hex digit.
pub open spec fn lower_hex_digit(d: int) -> char {
    if d < 10 { crate::text::digit_char(d as nat) } else if d == 10 { 'a' } else if d == 11 { 'b' } else if d == 12 {
        'c'
    } else if d == 13 { 'd' } else if d == 14 { 'e' } else { 'f' }
}

/// The characters of a text, each as a JSON string writes it.
pub open spec fn json_escaped(s: Seq<char>) -> Seq<char>
    decreases s.len(),
{
    if s.len() == 0 { s } else { json_escaped(s.drop_last()) + json_char(s.last()) }
}

/// A text as a JSON string: escaped, between double quotes.
pub open spec fn json_quoted(s: Seq<char>) -> Seq<char> {
    "\""@ + json_escaped(s) + "\""@
}

/// `serde_json::to_string` of a `&str`: the text as a JSON string, with
/// serde_json's escapes (which cannot fail for a string).
#[verifier::external_body]
fn json_string(text: &str) -> (res: String)
    ensures
        res@ == json_quoted(text@),
{
    serde_json::to_string(text).unwrap_or_default()
}

/// Numbers as the elements of a JSON array: decimal, separated by commas.
pub open spec fn json_numbers(values: Seq<u64>) -> Seq<char>
    decreases values.len(),
{
    if values.len() == 0 {
        Seq::empty()
    } else if values.len() == 1 {
        crate::text::decimal(values[0] as nat)
    } else {
        json_numbers(values.drop_last()) + ","@ + crate::text::decimal(values.last() as nat)
    }
}

/// Texts as the elements of a JSON array: JSON strings, separated by commas.
pub open spec fn json_strings(values: Seq<Seq<char>>) -> Seq<char>
    decreases values.len(),
{
    if values.len() == 0 {
        Seq::empty()
    } else if values.len() == 1 {
        json_quoted(values[0])
    } else {
        json_strings(values.drop_last()) + ","@ + json_quoted(values.last())
    }
}

/// The chart service's configuration of a price history chart, as compact
/// JSON with its keys in sorted order: a line chart of the prices (left axis,
/// gold) and volumes (right axis, teal) over the labels, with the title.
pub open spec fn chart_config_text(labels: Seq<Seq<char>>, prices: Seq<u64>, volumes: Seq<u64>, title: Seq<char>) -> Seq<char> {
    r#"{"data":{"datasets":[{"backgroundColor":"rgba(255,215,0,0.1)","borderColor":"rgb(255,215,0)","data":["#@
        + json_numbers(prices)
        + r#"],"label":"Price (gp)","yAxisID":"yLeft"},{"backgroundColor":"rgba(75,192,192,0.1)","borderColor":"rgb(75,192,192)","data":["#@
        + json_numbers(volumes) + r#"],"label":"Volume","yAxisID":"yRight"}],"labels":["#@ + json_strings(labels)
        + r#"]},"options":{"plugins":{"legend":{"display":true},"tickFormat":{"maximumFractionDigits":2,"notation":"compact"},"title":{"display":true,"text":"#@
        + json_quoted(title)
        + r#"}},"responsive":true,"scales":{"x":{"grid":{"color":"grey","display":true}},"y":{"grid":{"color":"grey","display":true}},"yLeft":{"beginAtZero":false,"display":true,"position":"left","stacked":false,"type":"linear"},"yRight":{"beginAtZero":false,"display":true,"grid":{"drawOnChartArea":false},"position":"right","type":"linear"}}},"type":"line"}"#@
}

/// Appends numbers as the elements of a JSON array.
fn push_json_numbers(res: &mut String, values: &Vec<u64>)
    ensures
        final(res)@ == old(res)@ + json_numbers(values@),
{
    let ghost start = res@;
    let n = values.len();
    let mut i: usize = 0;
    while i < n
        invariant
            n == values@.len(),
            i <= n,
            res@ == start + json_numbers(values@.take(i as int)),
        decreases n - i,
    {
        assert(values@.take(i + 1).drop_last() =~= values@.take(i as int));
        if i > 0 {
            res.append(",");
        }
        let number = crate::text::u64_text(values[i]);
        res.append(number.as_str());
        i = i + 1;
    }
    assert(values@.take(n as int) =~= values@);
}

/// The views of texts.
pub open spec fn texts_view(values: Seq<String>) -> Seq<Seq<char>> {
    values.map_values(|v: String| v@)
}

/// Appends texts as the elements of a JSON array.
fn push_json_strings(res: &mut String, values: &Vec<String>)
    ensures
        final(res)@ == old(res)@ + json_strings(texts_view(values@)),
{
    let ghost start = res@;
    let n = values.len();
    let mut i: usize = 0;
    while i < n
        invariant
            n == values@.len(),
            i <= n,
            res@ == start + json_strings(texts_view(values@).take(i as int)),
        decreases n - i,
    {
        assert(texts_view(values@).take(i + 1).drop_last() =~= texts_view(values@).take(i as int));
        if i > 0 {
            res.append(",");
        }
        let quoted = json_string(values[i].as_str());
        res.append(quoted.as_str());
        i = i + 1;
    }
    assert(texts_view(values@).take(n as int) =~= texts_view(values@));
}

/// The chart service's configuration of a chart, as JSON text.
pub fn chart_config_json(chart: &ChartData) -> (res: String)
    ensures
        res@ == chart_config_text(texts_view(chart.labels@), chart.prices@, chart.volumes@, chart.title@),
{
    let mut res = String::from_str(
        r#"{"data":{"datasets":[{"backgroundColor":"rgba(255,215,0,0.1)","borderColor":"rgb(255,215,0)","data":["#,
    );
    push_json_numbers(&mut res, &chart.prices);
    res.append(
        r#"],"label":"Price (gp)","yAxisID":"yLeft"},{"backgroundColor":"rgba(75,192,192,0.1)","borderColor":"rgb(75,192,192)","data":["#,
    );
    push_json_numbers(&mut res, &chart.volumes);
    res.append(r#"],"label":"Volume","yAxisID":"yRight"}],"labels":["#);
    push_json_strings(&mut res, &chart.labels);
    res.append(
        r#"]},"options":{"plugins":{"legend":{"display":true},"tickFormat":{"maximumFractionDigits":2,"notation":"compact"},"title":{"display":true,"text":"#,
    );
    let title = json_string(chart.title.as_str());
    res.append(title.as_str());
    res.append(
        r#"}},"responsive":true,"scales":{"x":{"grid":{"color":"grey","display":true}},"y":{"grid":{"color":"grey","display":true}},"yLeft":{"beginAtZero":false,"display":true,"position":"left","stacked":false,"type":"linear"},"yRight":{"beginAtZero":false,"display":true,"grid":{"drawOnChartArea":false},"position":"right","type":"linear"}}},"type":"line"}"#,
    );
    res
}

/// The labels of a stretch of prices.
pub open spec fn chart_labels(prices: Seq<RSPrice>) -> Seq<Seq<char>> {
    prices.map_values(|p: RSPrice| chart_label(p.timestamp).unwrap())
}

/// The chart configuration of the last `count` prices of `history` for `item_name`.
pub open spec fn history_chart_text(history: Seq<RSPrice>, count: int, item_name: Seq<char>) -> Seq<char> {
    let recent = recent_prices(history, count);
    chart_config_text(
        chart_labels(recent),
        recent.map_values(|p: RSPrice| p.price),
        recent.map_values(|p: RSPrice| p.volume),
        chart_title(item_name),
    )
}

/// The chart data of the last `time_length` prices of `history` for
/// `item_name`: their labels, prices and volumes in order, and the item's
/// title. Every moment in milliseconds among them must be in chrono's range.
pub fn chart_data(history: &Vec<RSPrice>, time_length: u16, item_name: &str) -> (res: ChartData)
    requires
        labels_defined(recent_prices(history@, time_length as int)),
    ensures
        is_chart_of(res, history@, time_length as int, item_name@),
{
    match build_chart(history, time_length, item_name) {
        Some(chart) => chart,
        None => {
            assert(false);
            ChartData { labels: Vec::new(), prices: Vec::new(), volumes: Vec::new(), title: String::new() }
        },
    }
}

/// The chart service's configuration (JSON) of the chart of the last
/// `time_length` prices of `history` for `item_name`. Every moment in
/// milliseconds among them must be in chrono's range.
pub fn generate_chart_data(history: Vec<RSPrice>, time_length: u16, item_name: String) -> (res: String)
    requires
        labels_defined(recent_prices(history@, time_length as int)),
    ensures
        res@ == history_chart_text(history@, time_length as int, item_name@),
{
    let chart = chart_data(&history, time_length, item_name.as_str());
    let ghost recent = recent_prices(history@, time_length as int);
    assert(texts_view(chart.labels@) =~= chart_labels(recent)) by {
        assert forall|i: int| 0 <= i < recent.len() implies texts_view(chart.labels@)[i] == chart_labels(recent)[i] by {
            assert(chart_label(recent[i].timestamp) == Some(chart.labels@[i]@));
        }
    }
    chart_config_json(&chart)
}

/// The chart configuration of the last `time_length` prices of `history` for
/// `item_name`, or `None` when a moment among them is out of chrono's range.
pub fn checked_chart_data(history: Vec<RSPrice>, time_length: u16, item_name: String) -> (res: Option<String>)
    ensures
        res is Some <==> labels_defined(recent_prices(history@, time_length as int)),
        res matches Some(text) ==> text@ == history_chart_text(history@, time_length as int, item_name@),
{
    if labels_available(&history, time_length) {
        Some(generate_chart_data(history, time_length, item_name))
    } else {
        None
    }
}

/// The chart sees only the last `count` prices: putting any prices in front
/// of a history of at least `count` prices changes neither which prices are
/// charted, nor whether they all have labels, nor the chart's text.
pub proof fn lemma_chart_only_sees_recent(earlier: Seq<RSPrice>, history: Seq<RSPrice>, count: int, item_name: Seq<char>)
    requires
        0 <= count <= history.len(),
    ensures
        recent_prices(earlier + history, count) == recent_prices(history, count),
        labels_defined(recent_prices(earlier + history, count)) == labels_defined(recent_prices(history, count)),
        history_chart_text(earlier + history, count, item_name) == history_chart_text(history, count, item_name),
{
    let whole = earlier + history;
    assert(recent_prices(whole, count) =~= recent_prices(history, count)) by {
        if history.len() > count {
            assert(whole.skip(whole.len() - count) =~= history.skip(history.len() - count));
        } else {
            assert(whole.skip(whole.len() - count) =~= history);
        }
    }
}

} // verus!
