//! Vultr: credentials, API addresses, and reading the region and plan
//! listings of the Vultr API into catalog records.

use vstd::prelude::*;
use crate::aws::catalog::InstanceTypeSpec;
use crate::aws::network::opt_view;
use crate::cluster::{config_value, get_value, ConfigVar};
use crate::json::{json_as_i64, json_as_str, json_index, Json};
use crate::text::{contains_seq, lowercase, remove_char, remove_all_char, str_contains, to_lowercase};

verus! {

/// The root of the Vultr API.
pub const VULTR_API_BASE_URL: &'static str = "https://api.vultr.com/v2";

/// A Vultr account, by its configuration settings (`API_KEY`).
pub struct VultrInterface {
    pub config_vars: Vec<ConfigVar>,
}

/// Why a Vultr request cannot be made or its answer cannot be read.
pub enum VultrError {
    /// No `API_KEY` setting.
    MissingApiKey,
    /// The key holds characters that an HTTP header value cannot carry.
    InvalidAuthorizationHeader,
    /// The answer lacks the array named `field`.
    MissingArray { field: String },
    /// The region is not one of Vultr's regions.
    InvalidRegion { region: String },
    /// The operation is not offered for Vultr.
    NotImplemented,
}

/// An HTTP header value accepts the character: visible ASCII, a space, a
/// tab, or any non-ASCII character (whose UTF-8 bytes are all above 127).
pub open spec fn header_char_ok(c: char) -> bool {
    c == '\t' || (c as u32 >= 32 && c as u32 != 127)
}

/// An HTTP header value accepts the text.
pub open spec fn header_text_ok(s: Seq<char>) -> bool {
    forall|i: int| 0 <= i < s.len() ==> header_char_ok(#[trigger] s[i])
}

/// Calls `reqwest::header::HeaderValue::from_str` and reports whether it
/// accepted the text. The contract claims what the `http` crate's source
/// shows: every byte must be at least 32 and not 127, or be a tab; in
/// terms of characters, this is `header_text_ok`.
#[verifier::external_body]
fn header_value_accepts(text: &str) -> (b: bool)
    ensures
        b == header_text_ok(text@),
{
    reqwest::header::HeaderValue::from_str(text).is_ok()
}

/// The value of the `Authorization` header for an API key.
pub open spec fn bearer(key: Seq<char>) -> Seq<char> {
    "Bearer "@ + key
}

impl VultrInterface {
    /// The `Authorization` header value for this account: `Bearer` and the
    /// `API_KEY` setting.
    pub fn authorization_header(&self) -> (r: Result<String, VultrError>)
        ensures
            match config_value(self.config_vars@, "API_KEY"@) {
                None => r matches Err(VultrError::MissingApiKey),
                Some(key) => if header_text_ok(bearer(key)) {
                    r matches Ok(h) && h@ == bearer(key)
                } else {
                    r matches Err(VultrError::InvalidAuthorizationHeader)
                },
            },
    {
        let key = match get_value(&self.config_vars, "API_KEY") {
            Some(k) => k,
            None => {
                return Err(VultrError::MissingApiKey);
            },
        };
        let mut header = String::from_str("Bearer ");
        proof {
            reveal_strlit("Bearer ");
        }
        header.append(key.as_str());
        if header_value_accepts(header.as_str()) {
            Ok(header)
        } else {
            Err(VultrError::InvalidAuthorizationHeader)
        }
    }

    /// The address of an API endpoint, such as `/regions`.
    pub fn api_url(endpoint: &str) -> (r: String)
        ensures
            r@ == VULTR_API_BASE_URL@ + endpoint@,
    {
        let mut url = String::from_str(VULTR_API_BASE_URL);
        url.append(endpoint);
        url
    }
}

/// The ids (as text) of the region entries that have one, in order.
pub open spec fn region_id_list(regions: Seq<Json>) -> Seq<Seq<char>>
    decreases regions.len(),
{
    if regions.len() == 0 {
        Seq::empty()
    } else {
        let before = region_id_list(regions.drop_last());
        match json_as_str(json_index(regions.last(), "id"@)) {
            Some(id) => before.push(id),
            None => before,
        }
    }
}

/// Reads the answer of `/regions`: the id of each region that has a
/// textual one, in order.
pub fn region_ids(response: &Json) -> (r: Result<Vec<String>, VultrError>)
    ensures
        match json_index(*response, "regions"@) {
            Json::Array(items) => r matches Ok(ids) && crate::text::views(ids@) == region_id_list(
                items@,
            ),
            _ => r matches Err(VultrError::MissingArray { field }) && field@ == "regions"@,
        },
{
    let items = match response.index("regions").as_array() {
        Some(items) => items,
        None => {
            return Err(VultrError::MissingArray { field: String::from_str("regions") });
        },
    };
    let mut ids: Vec<String> = Vec::new();
    let mut i: usize = 0;
    while i < items.len()
        invariant
            i <= items.len(),
            crate::text::views(ids@) == region_id_list(items@.take(i as int)),
        decreases items.len() - i,
    {
        assert(items@.take(i + 1).drop_last() =~= items@.take(i as int));
        match items[i].index("id").as_str() {
            Some(id) => {
                ids.push(id.clone());
                assert(crate::text::views(ids@) =~= crate::text::views(ids@.drop_last()).push(
                    ids@.last()@,
                ));
            },
            None => {},
        }
        i = i + 1;
    }
    assert(items@.take(items.len() as int) =~= items@);
    Ok(ids)
}

/// Vultr has no zones: the region itself is the only zone, provided that
/// it is one of Vultr's regions.
pub fn zones_for_region(regions: &Vec<String>, region: &str) -> (r: Result<
    Vec<String>,
    VultrError,
>)
    ensures
        (exists|i: int| 0 <= i < regions@.len() && #[trigger] regions@[i]@ == region@) ==> (r matches Ok(
            zones,
        ) && zones@.len() == 1 && zones@[0]@ == region@),
        !(exists|i: int| 0 <= i < regions@.len() && #[trigger] regions@[i]@ == region@) ==> (r matches Err(
            VultrError::InvalidRegion { region: name },
        ) && name@ == region@),
{
    let wanted = String::from_str(region);
    let mut i: usize = 0;
    while i < regions.len()
        invariant
            i <= regions.len(),
            wanted@ == region@,
            forall|k: int| 0 <= k < i ==> #[trigger] regions@[k]@ != region@,
        decreases regions.len() - i,
    {
        if regions[i] == wanted {
            let mut zones: Vec<String> = Vec::new();
            zones.push(wanted);
            return Ok(zones);
        }
        i = i + 1;
    }
    Err(VultrError::InvalidRegion { region: wanted })
}

/// `mb` megabytes (of 10^6 bytes) in mebibytes (of 2^20 bytes), rounded to
/// the nearest integer, halves away from zero.
pub open spec fn mb_to_mib(mb: int) -> int {
    if mb >= 0 {
        (mb * 1000000 + 524288) / 1048576
    } else {
        -(((-mb) * 1000000 + 524288) / 1048576)
    }
}

/// Converts a memory size in megabytes to mebibytes.
pub fn megabytes_to_mebibytes(mb: i64) -> (r: i64)
    ensures
        r == mb_to_mib(mb as int),
{
    let m = mb as i128;
    if m >= 0 {
        let q: i128 = (m * 1000000 + 524288) / 1048576;
        assert(q <= m);
        q as i64
    } else {
        let q: i128 = ((0 - m) * 1000000 + 524288) / 1048576;
        assert(q <= 0 - m);
        (0 - q) as i64
    }
}

/// The plan is offered in `region`: its `locations` array lists it.
pub open spec fn offered_in(plan: Json, region: Seq<char>) -> bool {
    match json_index(plan, "locations"@) {
        Json::Array(items) => exists|i: int|
            0 <= i < items@.len() && json_as_str(#[trigger] items@[i]) == Some(region),
        _ => false,
    }
}

/// The member that gives a plan's vCPU count: hardware threads for bare
/// metal plans, virtual CPUs otherwise.
pub open spec fn vcpu_key(metal: bool) -> Seq<char> {
    if metal {
        "cpu_threads"@
    } else {
        "vcpu_count"@
    }
}

/// The CPU vendor named by the lowercase form of a plan name.
pub open spec fn vendor_in(lower: Seq<char>) -> Seq<char> {
    if contains_seq(lower, "amd"@) {
        "AMD"@
    } else if contains_seq(lower, "intel"@) {
        "Intel"@
    } else {
        "Unspecified"@
    }
}

/// The CPU vendor of a virtual plan, as its name tells it.
pub open spec fn virtual_cpu_type(name: Seq<char>) -> Seq<char> {
    vendor_in(lowercase(name))
}

/// The CPU description of a bare metal plan: manufacturer and model as far
/// as given, without double quotes.
pub open spec fn metal_cpu_type(plan: Json) -> Seq<char> {
    let raw = match (
        json_as_str(json_index(plan, "cpu_manufacturer"@)),
        json_as_str(json_index(plan, "cpu_model"@)),
    ) {
        (Some(m), Some(model)) => m + " "@ + model,
        (Some(m), None) => m,
        (None, Some(model)) => model,
        (None, None) => "Unspecified"@,
    };
    remove_char(raw, '"')
}

/// The text of a number.
pub open spec fn number_text(j: Json) -> Option<Seq<char>> {
    match j {
        Json::Number(_, text) => Some(text@),
        _ => None,
    }
}

/// A plan read from the Vultr listing, with the text of its hourly price
/// when the listing gives one as a number.
pub struct VultrPlan {
    pub instance_type: InstanceTypeSpec,
    pub hourly_cost: Option<String>,
}

/// Why an offered plan is passed over.
pub enum VultrPlanSkip {
    /// It has no textual id.
    NoId,
    /// It gives no integer vCPU count.
    MissingVcpus { name: String },
    /// It gives no integer memory size.
    MissingMemory { name: String },
}

/// The plan is kept: it is offered in the region and gives an id, a vCPU
/// count and a memory size.
pub open spec fn plan_usable(plan: Json, region: Seq<char>, metal: bool) -> bool {
    &&& offered_in(plan, region)
    &&& json_as_str(json_index(plan, "id"@)) is Some
    &&& json_as_i64(json_index(plan, vcpu_key(metal))) is Some
    &&& json_as_i64(json_index(plan, "ram"@)) is Some
}

/// `p` is the record of the usable plan `plan`.
pub open spec fn plan_record(plan: Json, region: Seq<char>, metal: bool, p: VultrPlan) -> bool {
    let t = p.instance_type;
    let name = json_as_str(json_index(plan, "id"@)).unwrap();
    &&& t.name@ == name
    &&& t.cpu_architecture@ == "x86_64"@
    &&& t.vcpus == json_as_i64(json_index(plan, vcpu_key(metal))).unwrap()
    &&& t.core_count == if metal {
        json_as_i64(json_index(plan, "cpu_cores"@))
    } else {
        None
    }
    &&& t.threads_per_core is None
    &&& t.cpu_type@ == if metal {
        metal_cpu_type(plan)
    } else {
        virtual_cpu_type(name)
    }
    &&& opt_view(t.gpu_type) == json_as_str(json_index(plan, "gpu_type"@))
    &&& t.gpu_count == if json_as_str(json_index(plan, "gpu_type"@)) is Some {
        1i64
    } else {
        0i64
    }
    &&& t.fpga_count == 0
    &&& t.fpga_type is None
    &&& t.memory_in_mib as int == mb_to_mib(json_as_i64(json_index(plan, "ram"@)).unwrap() as int)
    &&& !t.supports_spot
    &&& t.is_baremetal == metal
    &&& !t.is_burstable
    &&& !t.supports_efa
    &&& !t.has_affinity_settings
    &&& t.region@ == region
    &&& t.provider_id@ == "vultr"@
    &&& opt_view(p.hourly_cost) == number_text(json_index(plan, "hourly_cost"@))
}

fn offered(plan: &Json, region: &str) -> (b: bool)
    ensures
        b == offered_in(*plan, region@),
{
    match plan.index("locations").as_array() {
        Some(items) => {
            let mut i: usize = 0;
            while i < items.len()
                invariant
                    i <= items.len(),
                    json_index(*plan, "locations"@) == Json::Array(*items),
                    forall|k: int| 0 <= k < i ==> json_as_str(#[trigger] items@[k]) != Some(region@),
                decreases items.len() - i,
            {
                match items[i].as_str() {
                    Some(s) => {
                        if str_eq(s.as_str(), region) {
                            return true;
                        }
                    },
                    None => {},
                }
                i = i + 1;
            }
            false
        },
        None => false,
    }
}

fn str_eq(a: &str, b: &str) -> (r: bool)
    ensures
        r == (a@ == b@),
{
    let x = String::from_str(a);
    let y = String::from_str(b);
    x == y
}

fn text_of(j: &Json) -> (r: Option<String>)
    ensures
        opt_view(r) == json_as_str(*j),
{
    match j.as_str() {
        Some(s) => Some(s.clone()),
        None => None,
    }
}

fn metal_cpu(plan: &Json) -> (r: String)
    ensures
        r@ == metal_cpu_type(*plan),
{
    let raw = match (text_of(plan.index("cpu_manufacturer")), text_of(plan.index("cpu_model"))) {
        (Some(m), Some(model)) => {
            let mut t = m;
            t.append(" ");
            t.append(model.as_str());
            t
        },
        (Some(m), None) => m,
        (None, Some(model)) => model,
        (None, None) => String::from_str("Unspecified"),
    };
    proof {
        reveal_strlit(" ");
        reveal_strlit("Unspecified");
    }
    remove_all_char(raw.as_str(), '"')
}

/// The CPU vendor that the lowercase form of a plan name mentions: AMD,
/// then Intel, else unspecified.
pub fn cpu_vendor(lower: &str) -> (r: String)
    ensures
        r@ == vendor_in(lower@),
{
    if str_contains(lower, "amd") {
        String::from_str("AMD")
    } else if str_contains(lower, "intel") {
        String::from_str("Intel")
    } else {
        String::from_str("Unspecified")
    }
}

fn virtual_cpu(name: &String) -> (r: String)
    ensures
        r@ == virtual_cpu_type(name@),
{
    let lower = to_lowercase(name.as_str());
    cpu_vendor(lower.as_str())
}

/// Reads one plan of a listing for `region` (`metal` for the bare metal
/// listing): `None` when the plan is not offered there; otherwise the
/// plan's record, or why it is passed over.
pub fn vultr_plan(plan: &Json, region: &str, metal: bool) -> (r: Option<
    Result<VultrPlan, VultrPlanSkip>,
>)
    ensures
        match r {
            None => !offered_in(*plan, region@),
            Some(Err(VultrPlanSkip::NoId)) => offered_in(*plan, region@) && json_as_str(
                json_index(*plan, "id"@),
            ) is None,
            Some(Err(VultrPlanSkip::MissingVcpus { name })) => offered_in(*plan, region@)
                && json_as_str(json_index(*plan, "id"@)) == Some(name@) && json_as_i64(
                json_index(*plan, vcpu_key(metal)),
            ) is None,
            Some(Err(VultrPlanSkip::MissingMemory { name })) => offered_in(*plan, region@)
                && json_as_str(json_index(*plan, "id"@)) == Some(name@) && json_as_i64(
                json_index(*plan, vcpu_key(metal)),
            ) is Some && json_as_i64(json_index(*plan, "ram"@)) is None,
            Some(Ok(p)) => plan_usable(*plan, region@, metal) && plan_record(
                *plan,
                region@,
                metal,
                p,
            ),
        },
{
    if !offered(plan, region) {
        return None;
    }
    let name = match text_of(plan.index("id")) {
        Some(n) => n,
        None => {
            return Some(Err(VultrPlanSkip::NoId));
        },
    };
    let vcpus = if metal {
        plan.index("cpu_threads").as_i64()
    } else {
        plan.index("vcpu_count").as_i64()
    };
    let vcpus = match vcpus {
        Some(v) => v,
        None => {
            return Some(Err(VultrPlanSkip::MissingVcpus { name }));
        },
    };
    let ram = match plan.index("ram").as_i64() {
        Some(m) => m,
        None => {
            return Some(Err(VultrPlanSkip::MissingMemory { name }));
        },
    };
    let (core_count, cpu_type) = if metal {
        (plan.index("cpu_cores").as_i64(), metal_cpu(plan))
    } else {
        (None, virtual_cpu(&name))
    };
    let gpu_type = text_of(plan.index("gpu_type"));
    let gpu_count: i64 = match &gpu_type {
        Some(_) => 1,
        None => 0,
    };
    let hourly_cost = match plan.index("hourly_cost") {
        Json::Number(_, text) => Some(text.clone()),
        _ => None,
    };
    Some(
        Ok(
            VultrPlan {
                instance_type: InstanceTypeSpec {
                    name,
                    cpu_architecture: String::from_str("x86_64"),
                    vcpus,
                    core_count,
                    threads_per_core: None,
                    cpu_type,
                    gpu_count,
                    gpu_type,
                    fpga_count: 0,
                    fpga_type: None,
                    memory_in_mib: megabytes_to_mebibytes(ram),
                    supports_spot: false,
                    is_baremetal: metal,
                    is_burstable: false,
                    supports_efa: false,
                    has_affinity_settings: false,
                    region: String::from_str(region),
                    provider_id: String::from_str("vultr"),
                },
                hourly_cost,
            },
        ),
    )
}

/// The usable plans of a listing, in order.
pub open spec fn usable_plans(plans: Seq<Json>, region: Seq<char>, metal: bool) -> Seq<Json>
    decreases plans.len(),
{
    if plans.len() == 0 {
        Seq::empty()
    } else {
        let before = usable_plans(plans.drop_last(), region, metal);
        if plan_usable(plans.last(), region, metal) {
            before.push(plans.last())
        } else {
            before
        }
    }
}

/// The array that holds a listing's plans.
pub open spec fn listing_field(metal: bool) -> Seq<char> {
    if metal {
        "plans_metal"@
    } else {
        "plans"@
    }
}

/// Reads the answer of `/plans` (or, for `metal`, of `/plans-metal`) for
/// `region`: one record per usable plan, in the listing's order.
pub fn vultr_plans(response: &Json, region: &str, metal: bool) -> (r: Result<
    Vec<VultrPlan>,
    VultrError,
>)
    ensures
        match json_index(*response, listing_field(metal)) {
            Json::Array(plans) => r matches Ok(out) && out@.len() == usable_plans(
                plans@,
                region@,
                metal,
            ).len() && forall|k: int|
                0 <= k < out@.len() ==> plan_record(
                    #[trigger] usable_plans(plans@, region@, metal)[k],
                    region@,
                    metal,
                    out@[k],
                ),
            _ => r matches Err(VultrError::MissingArray { field }) && field@ == listing_field(metal),
        },
{
    let plans = if metal {
        response.index("plans_metal").as_array()
    } else {
        response.index("plans").as_array()
    };
    let plans = match plans {
        Some(p) => p,
        None => {
            let field = if metal {
                String::from_str("plans_metal")
            } else {
                String::from_str("plans")
            };
            return Err(VultrError::MissingArray { field });
        },
    };
    let mut out: Vec<VultrPlan> = Vec::new();
    let mut i: usize = 0;
    while i < plans.len()
        invariant
            i <= plans.len(),
            out@.len() == usable_plans(plans@.take(i as int), region@, metal).len(),
            forall|k: int|
                0 <= k < out@.len() ==> plan_record(
                    #[trigger] usable_plans(plans@.take(i as int), region@, metal)[k],
                    region@,
                    metal,
                    out@[k],
                ),
        decreases plans.len() - i,
    {
        assert(plans@.take(i + 1).drop_last() =~= plans@.take(i as int));
        assert(plans@.take(i + 1).last() == plans@[i as int]);
        match vultr_plan(&plans[i], region, metal) {
            Some(Ok(p)) => {
                out.push(p);
            },
            _ => {},
        }
        i = i + 1;
    }
    assert(plans@.take(plans.len() as int) =~= plans@);
    Ok(out)
}

} // verus!
