//! Reading instance types and machine images out of EC2 descriptions.

use vstd::prelude::*;
use crate::aws::network::opt_view;
use crate::text::{join_seq, views};

verus! {

/// An instance type as the catalog records it (prices are added apart).
pub struct InstanceTypeSpec {
    pub name: String,
    pub cpu_architecture: String,
    pub vcpus: i64,
    pub core_count: Option<i64>,
    pub threads_per_core: Option<i64>,
    pub cpu_type: String,
    pub gpu_count: i64,
    pub gpu_type: Option<String>,
    pub fpga_count: i64,
    pub fpga_type: Option<String>,
    pub memory_in_mib: i64,
    pub supports_spot: bool,
    pub is_baremetal: bool,
    pub is_burstable: bool,
    pub supports_efa: bool,
    pub has_affinity_settings: bool,
    pub region: String,
    pub provider_id: String,
}

/// The vCPU section of an instance type description.
pub struct VCpuInfoRecord {
    pub default_vcpus: Option<i32>,
    pub default_cores: Option<i32>,
    pub default_threads_per_core: Option<i32>,
}

/// The processor section of an instance type description.
pub struct ProcessorInfoRecord {
    pub manufacturer: Option<String>,
    /// Architecture names, such as "x86_64" or "arm64".
    pub supported_architectures: Option<Vec<String>>,
}

/// An accelerator (GPU or FPGA) of an instance type.
pub struct AcceleratorRecord {
    pub count: Option<i32>,
    pub manufacturer: Option<String>,
    pub name: Option<String>,
}

/// What the catalog reads of an EC2 instance type description.
pub struct InstanceTypeRecord {
    pub instance_type: Option<String>,
    pub vcpu_info: Option<VCpuInfoRecord>,
    pub processor_info: Option<ProcessorInfoRecord>,
    /// `None` when there is no GPU section; otherwise its devices (if listed).
    pub gpu_info: Option<Option<Vec<AcceleratorRecord>>>,
    pub fpga_info: Option<Option<Vec<AcceleratorRecord>>>,
    /// The memory size, when the memory section gives one.
    pub memory_size_in_mib: Option<i64>,
    /// Supported placement strategies, such as "cluster".
    pub placement_strategies: Option<Vec<String>>,
    /// Supported usage classes, such as "spot".
    pub usage_classes: Option<Vec<String>>,
    pub bare_metal: Option<bool>,
    pub burstable_performance_supported: Option<bool>,
    pub efa_supported: Option<bool>,
}

/// Why an instance type description is passed over.
pub enum InstanceTypeSkip {
    /// It has no name.
    NoName,
    /// It gives no (or zero) default vCPUs.
    MissingVcpus { name: String },
    /// It gives no (or zero) memory size.
    MissingMemory { name: String },
}

/// The list holds `t`.
pub open spec fn lists(v: Option<Vec<String>>, t: Seq<char>) -> bool {
    v is Some && exists|i: int|
        0 <= i < v.unwrap()@.len() && #[trigger] v.unwrap()@[i]@ == t
}

fn list_contains(v: &Option<Vec<String>>, t: &str) -> (b: bool)
    ensures
        b == lists(*v, t@),
{
    match v {
        None => false,
        Some(items) => {
            let wanted = String::from_str(t);
            let mut i: usize = 0;
            while i < items.len()
                invariant
                    i <= items.len(),
                    wanted@ == t@,
                    *v == Some(*items),
                    forall|k: int| 0 <= k < i ==> #[trigger] items@[k]@ != t@,
                decreases items.len() - i,
            {
                if items[i] == wanted {
                    assert(v.unwrap()@[i as int]@ == t@);
                    return true;
                }
                i = i + 1;
            }
            false
        },
    }
}

/// The count and description of the first accelerator of a section.
pub open spec fn accelerator_summary(info: Option<Option<Vec<AcceleratorRecord>>>) -> (
    int,
    Option<Seq<char>>,
) {
    match info {
        Some(Some(devices)) => if devices@.len() > 0 {
            let d = devices@[0];
            (
                match d.count {
                    Some(c) => c as int,
                    None => 0,
                },
                Some(
                    match d.manufacturer {
                        Some(m) => m@,
                        None => Seq::empty(),
                    } + " "@ + match d.name {
                        Some(n) => n@,
                        None => Seq::empty(),
                    },
                ),
            )
        } else {
            (0, None)
        },
        _ => (0, None),
    }
}

fn summarize_accelerators(info: &Option<Option<Vec<AcceleratorRecord>>>) -> (r: (i64, Option<String>))
    ensures
        r.0 as int == accelerator_summary(*info).0,
        opt_view(r.1) == accelerator_summary(*info).1,
{
    match info {
        Some(Some(devices)) => {
            if devices.len() > 0 {
                let d = &devices[0];
                let count: i64 = match d.count {
                    Some(c) => c as i64,
                    None => 0,
                };
                let mut text = match &d.manufacturer {
                    Some(m) => m.clone(),
                    None => String::new(),
                };
                text.append(" ");
                match &d.name {
                    Some(n) => text.append(n.as_str()),
                    None => {},
                }
                (count, Some(text))
            } else {
                (0, None)
            }
        },
        _ => (0, None),
    }
}

/// `t` is the catalog record of the description `rec`: its name, vCPU,
/// core and thread counts, processor, accelerators, memory and flags as the
/// description gives them.
pub open spec fn type_record(rec: InstanceTypeRecord, region: Seq<char>, t: InstanceTypeSpec) -> bool {
    &&& rec.instance_type is Some
    &&& t.name@ == rec.instance_type.unwrap()@
    &&& rec.vcpu_info is Some
    &&& rec.vcpu_info.unwrap().default_vcpus is Some
    &&& t.vcpus == rec.vcpu_info.unwrap().default_vcpus.unwrap() as i64
    &&& t.vcpus != 0
    &&& t.core_count == match rec.vcpu_info.unwrap().default_cores {
        Some(c) => Some(c as i64),
        None => None,
    }
    &&& t.threads_per_core == match rec.vcpu_info.unwrap().default_threads_per_core {
        Some(c) => Some(c as i64),
        None => None,
    }
    &&& t.cpu_type@ == match rec.processor_info {
        Some(p) => match p.manufacturer {
            Some(m) => m@,
            None => Seq::empty(),
        },
        None => Seq::empty(),
    }
    &&& t.cpu_architecture@ == match rec.processor_info {
        Some(p) => match p.supported_architectures {
            Some(a) => join_seq(views(a@), ","@),
            None => Seq::empty(),
        },
        None => Seq::empty(),
    }
    &&& t.gpu_count as int == accelerator_summary(rec.gpu_info).0
    &&& opt_view(t.gpu_type) == accelerator_summary(rec.gpu_info).1
    &&& t.fpga_count as int == accelerator_summary(rec.fpga_info).0
    &&& opt_view(t.fpga_type) == accelerator_summary(rec.fpga_info).1
    &&& rec.memory_size_in_mib == Some(t.memory_in_mib)
    &&& t.memory_in_mib != 0
    &&& t.has_affinity_settings == lists(rec.placement_strategies, "cluster"@)
    &&& t.supports_spot == lists(rec.usage_classes, "spot"@)
    &&& t.is_baremetal == (rec.bare_metal == Some(true))
    &&& t.is_burstable == (rec.burstable_performance_supported == Some(true))
    &&& t.supports_efa == (rec.efa_supported == Some(true))
    &&& t.region@ == region
    &&& t.provider_id@ == "aws"@
}

/// Reads an instance type description into the catalog's record:
/// descriptions without a name, vCPU count or memory size are passed over;
/// absent flags read as false; the architectures are joined with commas;
/// the first GPU and FPGA (if any) give the accelerator count and
/// description; affinity means support for the "cluster" placement
/// strategy, and spot support the "spot" usage class.
pub fn instance_type_from_record(rec: &InstanceTypeRecord, region: &str) -> (r: Result<
    InstanceTypeSpec,
    InstanceTypeSkip,
>)
    ensures
        match r {
            Err(InstanceTypeSkip::NoName) => rec.instance_type is None,
            Err(InstanceTypeSkip::MissingVcpus { name }) => rec.instance_type is Some && name@
                == rec.instance_type.unwrap()@ && !(rec.vcpu_info is Some
                && rec.vcpu_info.unwrap().default_vcpus is Some
                && rec.vcpu_info.unwrap().default_vcpus.unwrap() != 0),
            Err(InstanceTypeSkip::MissingMemory { name }) => rec.instance_type is Some && name@
                == rec.instance_type.unwrap()@ && rec.vcpu_info is Some
                && rec.vcpu_info.unwrap().default_vcpus is Some
                && rec.vcpu_info.unwrap().default_vcpus.unwrap() != 0 && !(
            rec.memory_size_in_mib is Some && rec.memory_size_in_mib.unwrap() != 0),
            Ok(t) => type_record(*rec, region@, t),
        },
{
    let name = match &rec.instance_type {
        Some(n) => n.clone(),
        None => {
            return Err(InstanceTypeSkip::NoName);
        },
    };
    let (vcpus, core_count, threads_per_core) = match &rec.vcpu_info {
        Some(info) => {
            let v: i64 = match info.default_vcpus {
                Some(v) => v as i64,
                None => 0,
            };
            if v == 0 {
                return Err(InstanceTypeSkip::MissingVcpus { name });
            }
            let cores: Option<i64> = match info.default_cores {
                Some(c) => Some(c as i64),
                None => None,
            };
            let threads: Option<i64> = match info.default_threads_per_core {
                Some(c) => Some(c as i64),
                None => None,
            };
            (v, cores, threads)
        },
        None => {
            return Err(InstanceTypeSkip::MissingVcpus { name });
        },
    };
    let (cpu_type, cpu_architecture) = match &rec.processor_info {
        Some(p) => {
            let t = match &p.manufacturer {
                Some(m) => m.clone(),
                None => String::new(),
            };
            let a = match &p.supported_architectures {
                Some(archs) => crate::text::join(archs, ","),
                None => String::new(),
            };
            (t, a)
        },
        None => (String::new(), String::new()),
    };
    let (gpu_count, gpu_type) = summarize_accelerators(&rec.gpu_info);
    let (fpga_count, fpga_type) = summarize_accelerators(&rec.fpga_info);
    let memory_in_mib: i64 = match rec.memory_size_in_mib {
        Some(m) => m,
        None => 0,
    };
    if memory_in_mib == 0 {
        return Err(InstanceTypeSkip::MissingMemory { name });
    }
    let has_affinity_settings = list_contains(&rec.placement_strategies, "cluster");
    let supports_spot = list_contains(&rec.usage_classes, "spot");
    Ok(
        InstanceTypeSpec {
            name,
            cpu_architecture,
            vcpus,
            core_count,
            threads_per_core,
            cpu_type,
            gpu_count,
            gpu_type,
            fpga_count,
            fpga_type,
            memory_in_mib,
            supports_spot,
            is_baremetal: rec.bare_metal == Some(true),
            is_burstable: rec.burstable_performance_supported == Some(true),
            supports_efa: rec.efa_supported == Some(true),
            has_affinity_settings,
            region: String::from_str(region),
            provider_id: String::from_str("aws"),
        },
    )
}

/// The record is kept in the catalog.
pub open spec fn record_usable(rec: InstanceTypeRecord) -> bool {
    &&& rec.instance_type is Some
    &&& rec.vcpu_info is Some
    &&& rec.vcpu_info.unwrap().default_vcpus is Some
    &&& rec.vcpu_info.unwrap().default_vcpus.unwrap() != 0
    &&& rec.memory_size_in_mib is Some
    &&& rec.memory_size_in_mib.unwrap() != 0
}

/// The usable records, in order.
pub open spec fn usable_records(recs: Seq<InstanceTypeRecord>) -> Seq<InstanceTypeRecord>
    decreases recs.len(),
{
    if recs.len() == 0 {
        Seq::empty()
    } else {
        let before = usable_records(recs.drop_last());
        if record_usable(recs.last()) {
            before.push(recs.last())
        } else {
            before
        }
    }
}

/// Reads a page of instance type descriptions: one catalog record per
/// usable description, in order.
pub fn instance_types_from_records(recs: &Vec<InstanceTypeRecord>, region: &str) -> (r: Vec<
    InstanceTypeSpec,
>)
    ensures
        r@.len() == usable_records(recs@).len(),
        forall|k: int|
            0 <= k < r@.len() ==> type_record(#[trigger] usable_records(recs@)[k], region@, r@[k]),
{
    let mut out: Vec<InstanceTypeSpec> = Vec::new();
    let mut i: usize = 0;
    while i < recs.len()
        invariant
            i <= recs.len(),
            out@.len() == usable_records(recs@.take(i as int)).len(),
            forall|k: int|
                0 <= k < out@.len() ==> type_record(
                    #[trigger] usable_records(recs@.take(i as int))[k],
                    region@,
                    out@[k],
                ),
        decreases recs.len() - i,
    {
        assert(recs@.take(i + 1).drop_last() =~= recs@.take(i as int));
        assert(recs@.take(i + 1).last() == recs@[i as int]);
        match instance_type_from_record(&recs[i], region) {
            Ok(t) => {
                out.push(t);
            },
            Err(_) => {},
        }
        i = i + 1;
    }
    assert(recs@.take(recs.len() as int) =~= recs@);
    out
}

/// A machine image as the catalog records it.
pub struct MachineImageDetail {
    pub id: String,
    pub name: String,
    pub description: String,
    pub owner: String,
    pub creation_date: String,
}

/// What the catalog reads of an image description.
pub struct ImageRecord {
    pub name: Option<String>,
    pub description: Option<String>,
    pub owner_id: Option<String>,
    pub creation_date: Option<String>,
    /// The image state, such as "available".
    pub state: Option<String>,
}

/// The text, or the empty text when absent.
pub open spec fn or_empty(o: Option<String>) -> Seq<char> {
    match o {
        Some(s) => s@,
        None => Seq::empty(),
    }
}

fn text_or_empty(o: &Option<String>) -> (r: String)
    ensures
        r@ == or_empty(*o),
{
    match o {
        Some(s) => s.clone(),
        None => String::new(),
    }
}

/// Reads the image `image_id` out of a DescribeImages answer: the first
/// image, with absent fields read as empty; `None` when no image came back
/// (the image does not exist, is not accessible or is in another region).
pub fn machine_image_detail(image_id: &str, images: &Vec<ImageRecord>) -> (r: Option<
    MachineImageDetail,
>)
    ensures
        match r {
            None => images@.len() == 0,
            Some(d) => images@.len() > 0 && d.id@ == image_id@ && d.name@ == or_empty(
                images@[0].name,
            ) && d.description@ == or_empty(images@[0].description) && d.owner@ == or_empty(
                images@[0].owner_id,
            ) && d.creation_date@ == or_empty(images@[0].creation_date),
        },
{
    if images.len() == 0 {
        return None;
    }
    let img = &images[0];
    Some(
        MachineImageDetail {
            id: String::from_str(image_id),
            name: text_or_empty(&img.name),
            description: text_or_empty(&img.description),
            owner: text_or_empty(&img.owner_id),
            creation_date: text_or_empty(&img.creation_date),
        },
    )
}

/// Why an image cannot be used.
pub enum ImageAvailabilityError {
    /// The image is in another state.
    NotAvailable { state: String },
    /// The image state is unknown.
    UnknownState,
    /// No image came back.
    NotFound,
}

/// Checks that the first image of a DescribeImages answer is available.
pub fn image_available(images: &Vec<ImageRecord>) -> (r: Result<(), ImageAvailabilityError>)
    ensures
        images@.len() == 0 <==> r matches Err(ImageAvailabilityError::NotFound),
        images@.len() > 0 ==> match r {
            Ok(()) => images@[0].state is Some && images@[0].state.unwrap()@ == "available"@,
            Err(ImageAvailabilityError::NotAvailable { state }) => images@[0].state is Some
                && state@ == images@[0].state.unwrap()@ && state@ != "available"@,
            Err(ImageAvailabilityError::UnknownState) => images@[0].state is None,
            Err(ImageAvailabilityError::NotFound) => false,
        },
{
    if images.len() == 0 {
        return Err(ImageAvailabilityError::NotFound);
    }
    match &images[0].state {
        Some(s) => {
            let available = String::from_str("available");
            if *s == available {
                Ok(())
            } else {
                Err(ImageAvailabilityError::NotAvailable { state: s.clone() })
            }
        },
        None => Err(ImageAvailabilityError::UnknownState),
    }
}

} // verus!
