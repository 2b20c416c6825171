use vstd::prelude::*;
use vstd::string::*;

verus! {

/// The decimal digit `d` (below 10) as a character.
pub open spec fn digit_char(d: nat) -> char {
    if d == 0 {
        '0'
    } else if d == 1 {
        '1'
    } else if d == 2 {
        '2'
    } else if d == 3 {
        '3'
    } else if d == 4 {
        '4'
    } else if d == 5 {
        '5'
    } else if d == 6 {
        '6'
    } else if d == 7 {
        '7'
    } else if d == 8 {
        '8'
    } else {
        '9'
    }
}

/// The decimal notation of `n`, without leading zeros.
pub open spec fn decimal(n: nat) -> Seq<char>
    decreases n,
{
    if n < 10 {
        seq![digit_char(n)]
    } else {
        decimal(n / 10) + seq![digit_char(n % 10)]
    }
}

/// The label of item `i`: `Item-` followed by `i` in decimal.
pub open spec fn item_name_of(i: nat) -> Seq<char> {
    "Item-"@ + decimal(i)
}

/// Flag `j` of item `i`.
pub open spec fn flag_of(i: nat, j: nat) -> bool {
    (i + j) % 3 == 0
}

/// The category tag of item `i`: `even` or `odd` after the parity of `i`.
pub open spec fn category_of(i: nat) -> Seq<char> {
    if i % 2 == 0 {
        "even"@
    } else {
        "odd"@
    }
}

/// The fixed tag list that every item carries.
pub open spec fn item_tags() -> Seq<Seq<char>> {
    seq!["perf"@, "bench"@, "json"@]
}

/// The version tag of a generated payload.
pub open spec fn payload_version() -> Seq<char> {
    "1.0"@
}

/// The semi-structured metadata of one item.
#[derive(Debug)]
pub struct ItemMeta {
    pub category: String,
    pub index: u64,
    pub tags: Vec<String>,
}

/// One record of the structured payload. Its floating-point values are not
/// held here: there is one for each flag, and the host computes them from the
/// item's index and the flag's position when it serialises the payload.
#[derive(Debug)]
pub struct ComplexItem {
    pub id: u64,
    pub name: String,
    pub flags: Vec<bool>,
    pub meta: ItemMeta,
}

/// The structured payload: a version tag, a creation time in epoch seconds
/// and an ordered list of items.
#[derive(Debug)]
pub struct ComplexPayload {
    pub version: String,
    pub timestamp: u64,
    pub items: Vec<ComplexItem>,
}

/// `item` is item number `i` of a payload with `v` values per item.
pub open spec fn item_matches(item: ComplexItem, i: nat, v: nat) -> bool {
    &&& item.id == i
    &&& item.name@ == item_name_of(i)
    &&& item.flags@.len() == v
    &&& forall|j: int| 0 <= j < v ==> #[trigger] item.flags@[j] == flag_of(i, j as nat)
    &&& item.meta.category@ == category_of(i)
    &&& item.meta.index == i
    &&& item.meta.tags.deep_view() == item_tags()
}

/// `p` is the payload generated for `k` items of `v` values each at time `ts`.
pub open spec fn payload_matches(p: ComplexPayload, k: nat, v: nat, ts: u64) -> bool {
    &&& p.version@ == payload_version()
    &&& p.timestamp == ts
    &&& p.items@.len() == k
    &&& forall|i: int| 0 <= i < k ==> item_matches(#[trigger] p.items@[i], i as nat, v)
}

fn digit_str(d: u64) -> (r: &'static str)
    requires
        d < 10,
    ensures
        r@ == seq![digit_char(d as nat)],
{
    if d == 0 {
        proof { reveal_strlit("0"); }
        "0"
    } else if d == 1 {
        proof { reveal_strlit("1"); }
        "1"
    } else if d == 2 {
        proof { reveal_strlit("2"); }
        "2"
    } else if d == 3 {
        proof { reveal_strlit("3"); }
        "3"
    } else if d == 4 {
        proof { reveal_strlit("4"); }
        "4"
    } else if d == 5 {
        proof { reveal_strlit("5"); }
        "5"
    } else if d == 6 {
        proof { reveal_strlit("6"); }
        "6"
    } else if d == 7 {
        proof { reveal_strlit("7"); }
        "7"
    } else if d == 8 {
        proof { reveal_strlit("8"); }
        "8"
    } else {
        proof { reveal_strlit("9"); }
        "9"
    }
}

/// Appends the decimal notation of `n` to `s`.
pub fn append_decimal(s: &mut String, n: u64)
    ensures
        final(s)@ == old(s)@ + decimal(n as nat),
    decreases n,
{
    if n >= 10 {
        append_decimal(s, n / 10);
    }
    s.append(digit_str(n % 10));
    assert(s@ =~= old(s)@ + decimal(n as nat));
}

/// The label of item `i`.
pub fn item_name(i: u64) -> (r: String)
    ensures
        r@ == item_name_of(i as nat),
{
    let mut s = String::from_str("Item-");
    append_decimal(&mut s, i);
    s
}

/// The category tag of item `i`.
pub fn category(i: u64) -> (r: String)
    ensures
        r@ == category_of(i as nat),
{
    if i % 2 == 0 {
        String::from_str("even")
    } else {
        String::from_str("odd")
    }
}

/// The fixed tag list, freshly allocated.
pub fn tags() -> (r: Vec<String>)
    ensures
        r.deep_view() == item_tags(),
{
    let mut r: Vec<String> = Vec::with_capacity(3);
    r.push(String::from_str("perf"));
    r.push(String::from_str("bench"));
    r.push(String::from_str("json"));
    assert(r.deep_view() =~= item_tags());
    r
}

/// Builds item number `i` with `values_per_item` flags.
pub fn generate_item(i: u64, values_per_item: usize) -> (item: ComplexItem)
    ensures
        item_matches(item, i as nat, values_per_item as nat),
{
    let mut flags: Vec<bool> = Vec::with_capacity(values_per_item);
    let mut j: usize = 0;
    while j < values_per_item
        invariant
            j <= values_per_item,
            flags@.len() == j,
            forall|t: int| 0 <= t < j ==> #[trigger] flags@[t] == flag_of(i as nat, t as nat),
        decreases values_per_item - j,
    {
        flags.push((i as u128 + j as u128) % 3 == 0);
        j = j + 1;
    }
    let meta = ItemMeta { category: category(i), index: i, tags: tags() };
    ComplexItem { id: i, name: item_name(i), flags, meta }
}

/// Builds the structured payload: `item_count` items, item `i` numbered `i`
/// and carrying `values_per_item` flags, stamped with `timestamp`.
pub fn generate_payload(item_count: usize, values_per_item: usize, timestamp: u64) -> (p:
    ComplexPayload)
    ensures
        payload_matches(p, item_count as nat, values_per_item as nat, timestamp),
{
    let mut items: Vec<ComplexItem> = Vec::with_capacity(item_count);
    let mut i: usize = 0;
    while i < item_count
        invariant
            i <= item_count,
            items@.len() == i,
            forall|t: int|
                0 <= t < i ==> item_matches(#[trigger] items@[t], t as nat, values_per_item as nat),
        decreases item_count - i,
    {
        let item = generate_item(i as u64, values_per_item);
        items.push(item);
        i = i + 1;
    }
    ComplexPayload { version: String::from_str("1.0"), timestamp, items }
}

/// Relies on std::time::SystemTime::now and its duration_since(UNIX_EPOCH) for
/// the whole seconds since the Unix epoch; a clock set before the epoch gives 0.
/// Nothing is promised of the value: it is whatever the system clock says.
#[verifier::external_body]
fn epoch_seconds_now() -> (r: u64) {
    match std::time::SystemTime::now().duration_since(std::time::UNIX_EPOCH) {
        Ok(d) => d.as_secs(),
        Err(_) => 0,
    }
}

/// Builds the structured payload stamped with the current time.
pub fn generate_payload_now(item_count: usize, values_per_item: usize) -> (p: ComplexPayload)
    ensures
        payload_matches(p, item_count as nat, values_per_item as nat, p.timestamp),
{
    let timestamp = epoch_seconds_now();
    generate_payload(item_count, values_per_item, timestamp)
}

} // verus!
