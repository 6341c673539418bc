//! Reading prices out of AWS Pricing API documents and spot price history.

use vstd::prelude::*;
use crate::json::{
    deref_opt, json_as_str, json_document, json_first_member, json_get, json_index, parse_json, Json,
};

verus! {

/// Why no on-demand price text could be read for an instance type.
#[derive(Debug, Clone, Copy, PartialEq, Eq, Structural)]
pub enum PriceLookupError {
    /// The response carried no price list at all.
    NoPriceList,
    /// The price list was empty.
    EmptyPriceList,
    /// The first price list item is not a JSON document.
    UnparsableDocument,
    /// `product.attributes.instanceType` is not a string.
    AttributesMissing,
    /// The document describes another instance type.
    NameMismatch,
    /// `terms.OnDemand` is not an object.
    OnDemandMissing,
    /// `terms.OnDemand` has no offer.
    NoOffer,
    /// The offer has no `priceDimensions` object.
    DimensionsMissing,
    /// `priceDimensions` is empty.
    NoDimension,
    /// The dimension has no `pricePerUnit.USD` string.
    UsdMissing,
}

/// The `pricePerUnit.USD` text of the first price dimension of the first
/// on-demand offer of a pricing document.
pub open spec fn on_demand_usd(doc: Json) -> Result<Seq<char>, PriceLookupError> {
    match json_first_member(json_index(json_index(doc, "terms"@), "OnDemand"@)) {
        None => Err(PriceLookupError::OnDemandMissing),
        Some(None) => Err(PriceLookupError::NoOffer),
        Some(Some(offer)) => match json_get(offer, "priceDimensions"@) {
            None => Err(PriceLookupError::DimensionsMissing),
            Some(dims) => match json_first_member(dims) {
                None => Err(PriceLookupError::DimensionsMissing),
                Some(None) => Err(PriceLookupError::NoDimension),
                Some(Some(dim)) => match json_get(dim, "pricePerUnit"@) {
                    None => Err(PriceLookupError::UsdMissing),
                    Some(per_unit) => match json_get(per_unit, "USD"@) {
                        None => Err(PriceLookupError::UsdMissing),
                        Some(usd) => match json_as_str(usd) {
                            None => Err(PriceLookupError::UsdMissing),
                            Some(text) => Ok(text),
                        },
                    },
                },
            },
        },
    }
}

/// The on-demand price text of a pricing document for `instance_type`,
/// after checking that the document describes that instance type.
pub open spec fn document_price(doc: Json, instance_type: Seq<char>) -> Result<
    Seq<char>,
    PriceLookupError,
> {
    match json_as_str(
        json_index(json_index(json_index(doc, "product"@), "attributes"@), "instanceType"@),
    ) {
        None => Err(PriceLookupError::AttributesMissing),
        Some(name) => if name != instance_type {
            Err(PriceLookupError::NameMismatch)
        } else {
            on_demand_usd(doc)
        },
    }
}

/// The outcome of looking an instance type's price up in a GetProducts
/// price list: only its first item is read.
pub open spec fn price_list_price(
    instance_type: Seq<char>,
    price_list: Option<Seq<Seq<char>>>,
) -> Result<Seq<char>, PriceLookupError> {
    match price_list {
        None => Err(PriceLookupError::NoPriceList),
        Some(items) => if items.len() == 0 {
            Err(PriceLookupError::EmptyPriceList)
        } else {
            match json_document(items[0]) {
                None => Err(PriceLookupError::UnparsableDocument),
                Some(doc) => document_price(doc, instance_type),
            }
        },
    }
}

/// A result carrying a string, seen through the string's view.
pub open spec fn text_result<E>(r: Result<String, E>) -> Result<Seq<char>, E> {
    match r {
        Ok(s) => Ok(s@),
        Err(e) => Err(e),
    }
}

/// The views of an optional list of strings.
pub open spec fn opt_views(l: Option<Vec<String>>) -> Option<Seq<Seq<char>>> {
    match l {
        Some(v) => Some(crate::text::views(v@)),
        None => None,
    }
}

/// Reads the on-demand USD price text out of a pricing document.
pub fn on_demand_usd_text(doc: &Json) -> (r: Result<String, PriceLookupError>)
    ensures
        text_result(r) == on_demand_usd(*doc),
{
    proof {
        reveal_strlit("terms");
        reveal_strlit("OnDemand");
        reveal_strlit("priceDimensions");
        reveal_strlit("pricePerUnit");
        reveal_strlit("USD");
    }
    let on_demand = doc.index("terms").index("OnDemand");
    match on_demand.first_member() {
        None => Err(PriceLookupError::OnDemandMissing),
        Some(None) => Err(PriceLookupError::NoOffer),
        Some(Some(offer)) => match offer.get("priceDimensions") {
            None => Err(PriceLookupError::DimensionsMissing),
            Some(dims) => match dims.first_member() {
                None => Err(PriceLookupError::DimensionsMissing),
                Some(None) => Err(PriceLookupError::NoDimension),
                Some(Some(dim)) => match dim.get("pricePerUnit") {
                    None => Err(PriceLookupError::UsdMissing),
                    Some(per_unit) => match per_unit.get("USD") {
                        None => Err(PriceLookupError::UsdMissing),
                        Some(usd) => match usd.as_str() {
                            None => Err(PriceLookupError::UsdMissing),
                            Some(text) => Ok(text.clone()),
                        },
                    },
                },
            },
        },
    }
}

/// Reads the on-demand price text for `instance_type` out of a pricing
/// document, refusing a document about another instance type.
pub fn price_text_from_document(doc: &Json, instance_type: &str) -> (r: Result<
    String,
    PriceLookupError,
>)
    ensures
        text_result(r) == document_price(*doc, instance_type@),
{
    proof {
        reveal_strlit("product");
        reveal_strlit("attributes");
        reveal_strlit("instanceType");
    }
    let name = doc.index("product").index("attributes").index("instanceType");
    match name.as_str() {
        None => Err(PriceLookupError::AttributesMissing),
        Some(found) => {
            let wanted = String::from_str(instance_type);
            if *found != wanted {
                Err(PriceLookupError::NameMismatch)
            } else {
                on_demand_usd_text(doc)
            }
        },
    }
}

/// Reads the on-demand price text of `instance_type` out of the price list
/// of a GetProducts response (its first item, parsed with serde_json).
pub fn price_text_from_price_list(
    instance_type: &str,
    price_list: &Option<Vec<String>>,
) -> (r: Result<String, PriceLookupError>)
    ensures
        text_result(r) == price_list_price(instance_type@, opt_views(*price_list)),
{
    match price_list {
        None => Err(PriceLookupError::NoPriceList),
        Some(items) => {
            if items.len() == 0 {
                return Err(PriceLookupError::EmptyPriceList);
            }
            assert(crate::text::views(items@)[0] == items@[0]@);
            match parse_json(items[0].as_str()) {
                None => Err(PriceLookupError::UnparsableDocument),
                Some(doc) => price_text_from_document(&doc, instance_type),
            }
        },
    }
}

/// The on-demand price texts that can be read from the items of a price
/// list, in order (items that are not documents, or carry no price, are
/// passed over).
pub open spec fn price_candidates(items: Seq<Seq<char>>) -> Seq<Seq<char>>
    decreases items.len(),
{
    if items.len() == 0 {
        Seq::empty()
    } else {
        let before = price_candidates(items.drop_last());
        match json_document(items.last()) {
            Some(doc) => match on_demand_usd(doc) {
                Ok(text) => before.push(text),
                Err(_) => before,
            },
            None => before,
        }
    }
}

/// Collects, in order, the on-demand USD price texts found in a price list;
/// the first of them that reads as a number is the EBS price.
pub fn ebs_price_candidates(items: &Vec<String>) -> (r: Vec<String>)
    ensures
        crate::text::views(r@) == price_candidates(crate::text::views(items@)),
{
    let mut r: Vec<String> = Vec::new();
    let mut i: usize = 0;
    while i < items.len()
        invariant
            i <= items.len(),
            crate::text::views(r@) == price_candidates(crate::text::views(items@).take(i as int)),
        decreases items.len() - i,
    {
        let ghost pre = crate::text::views(items@).take(i as int);
        let ghost next = crate::text::views(items@).take(i + 1);
        assert(next.drop_last() =~= pre);
        assert(next.last() == items@[i as int]@);
        match parse_json(items[i].as_str()) {
            Some(doc) => match on_demand_usd_text(&doc) {
                Ok(text) => {
                    r.push(text);
                    assert(crate::text::views(r@) =~= price_candidates(pre).push(r@.last()@));
                },
                Err(_) => {},
            },
            None => {},
        }
        i = i + 1;
    }
    assert(crate::text::views(items@).take(items.len() as int) =~= crate::text::views(items@));
    r
}

/// Whether the EBS price of a volume type includes a provisioned-throughput
/// component (only `gp3` volumes are priced for it).
pub fn ebs_throughput_priced(volume_type: &str) -> (b: bool)
    ensures
        b == (volume_type@ == "gp3"@),
{
    let gp3 = String::from_str("gp3");
    let v = String::from_str(volume_type);
    v == gp3
}

/// One entry of a spot price history: its instance type, its price text and
/// whether that text reads as a number.
pub struct SpotPriceEntry {
    pub instance_type: Option<String>,
    pub price: Option<String>,
    pub price_parses: bool,
}

/// Some earlier selected entry is of the instance type `t`.
pub open spec fn type_already_selected(
    entries: Seq<SpotPriceEntry>,
    selected: Seq<int>,
    t: Seq<char>,
) -> bool {
    exists|k: int|
        0 <= k < selected.len() && 0 <= selected[k] < entries.len()
            && entries[selected[k]].instance_type is Some
            && entries[selected[k]].instance_type.unwrap()@ == t
}

/// The indices, among the first `n` entries, of the entries whose prices are
/// kept: the first entry of each instance type that has a price reading as a
/// number (the history lists the most recent entries first).
pub open spec fn spot_selection(entries: Seq<SpotPriceEntry>, n: int) -> Seq<int>
    decreases n,
{
    if n <= 0 {
        Seq::empty()
    } else {
        let before = spot_selection(entries, n - 1);
        let e = entries[n - 1];
        if e.instance_type is Some && e.price is Some && e.price_parses
            && !type_already_selected(entries, before, e.instance_type.unwrap()@) {
            before.push(n - 1)
        } else {
            before
        }
    }
}

proof fn lemma_spot_selection_bounds(entries: Seq<SpotPriceEntry>, n: int)
    requires
        0 <= n <= entries.len(),
    ensures
        forall|k: int|
            0 <= k < spot_selection(entries, n).len() ==> 0 <= #[trigger] spot_selection(
                entries,
                n,
            )[k] < n,
    decreases n,
{
    if n > 0 {
        lemma_spot_selection_bounds(entries, n - 1);
        let before = spot_selection(entries, n - 1);
        let now = spot_selection(entries, n);
        assert forall|k: int| 0 <= k < now.len() implies 0 <= #[trigger] now[k] < n by {
            if k < before.len() {
                assert(now[k] == before[k]);
            }
        }
    }
}

/// Chooses which spot price entries give the current price of each
/// instance type.
pub fn select_spot_prices(entries: &Vec<SpotPriceEntry>) -> (r: Vec<usize>)
    ensures
        r@.map_values(|i: usize| i as int) == spot_selection(entries@, entries@.len() as int),
{
    let mut r: Vec<usize> = Vec::new();
    let mut i: usize = 0;
    while i < entries.len()
        invariant
            i <= entries.len(),
            r@.map_values(|x: usize| x as int) == spot_selection(entries@, i as int),
        decreases entries.len() - i,
    {
        proof {
            lemma_spot_selection_bounds(entries@, i as int);
        }
        let e = &entries[i];
        if e.price.is_some() && e.price_parses {
            match &e.instance_type {
                Some(t) => {
                    let ghost sel = spot_selection(entries@, i as int);
                    let mut seen = false;
                    let mut k: usize = 0;
                    while k < r.len()
                        invariant
                            i < entries.len(),
                            k <= r.len(),
                            r@.map_values(|x: usize| x as int) == sel,
                            forall|q: int| 0 <= q < sel.len() ==> 0 <= #[trigger] sel[q] < i,
                            seen == exists|q: int|
                                0 <= q < k && entries@[sel[q]].instance_type is Some
                                    && entries@[sel[q]].instance_type.unwrap()@ == t@,
                        decreases r.len() - k,
                    {
                        assert(sel[k as int] == r@[k as int] as int);
                        match &entries[r[k]].instance_type {
                            Some(u) => {
                                if *u == *t {
                                    seen = true;
                                }
                            },
                            None => {},
                        }
                        k = k + 1;
                    }
                    assert(seen == type_already_selected(entries@, sel, t@));
                    if !seen {
                        r.push(i);
                        assert(r@.map_values(|x: usize| x as int) =~= sel.push(i as int));
                    }
                },
                None => {},
            }
        }
        i = i + 1;
    }
    r
}

} // verus!
