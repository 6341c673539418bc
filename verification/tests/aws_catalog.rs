use hpcac::aws::catalog::{
    image_available, instance_type_from_record, instance_types_from_records, machine_image_detail,
    AcceleratorRecord, ImageAvailabilityError, ImageRecord, InstanceTypeRecord, InstanceTypeSkip,
    ProcessorInfoRecord, VCpuInfoRecord,
};
use hpcac::aws::pricing::{
    ebs_price_candidates, ebs_throughput_priced, price_text_from_document,
    price_text_from_price_list, select_spot_prices, PriceLookupError, SpotPriceEntry,
};
use hpcac::json::parse_json;

fn s(x: &str) -> String {
    x.to_string()
}

fn price_doc(instance_type: &str, usd: &str) -> String {
    format!(
        "{{\"product\":{{\"attributes\":{{\"instanceType\":\"{}\"}}}},\"terms\":{{\"OnDemand\":{{\"ABC.DEF\":{{\"priceDimensions\":{{\"ABC.DEF.GHI\":{{\"pricePerUnit\":{{\"USD\":\"{}\"}}}}}}}}}}}}}}",
        instance_type, usd
    )
}

#[test]
fn on_demand_price_from_price_list() {
    let list = Some(vec![price_doc("c5.large", "0.0850000000")]);
    assert_eq!(price_text_from_price_list("c5.large", &list).unwrap(), "0.0850000000");
}

#[test]
fn price_list_errors() {
    assert_eq!(price_text_from_price_list("c5.large", &None).err(), Some(PriceLookupError::NoPriceList));
    assert_eq!(
        price_text_from_price_list("c5.large", &Some(vec![])).err(),
        Some(PriceLookupError::EmptyPriceList)
    );
    assert_eq!(
        price_text_from_price_list("c5.large", &Some(vec![s("not json")])).err(),
        Some(PriceLookupError::UnparsableDocument)
    );
    assert_eq!(
        price_text_from_price_list("c5.xlarge", &Some(vec![price_doc("c5.large", "1")])).err(),
        Some(PriceLookupError::NameMismatch)
    );
}

#[test]
fn document_errors() {
    let no_attrs = parse_json("{\"product\":{}}").unwrap();
    assert_eq!(price_text_from_document(&no_attrs, "t3.micro").err(), Some(PriceLookupError::AttributesMissing));
    let no_terms = parse_json("{\"product\":{\"attributes\":{\"instanceType\":\"t3.micro\"}}}").unwrap();
    assert_eq!(price_text_from_document(&no_terms, "t3.micro").err(), Some(PriceLookupError::OnDemandMissing));
    let no_offer = parse_json(
        "{\"product\":{\"attributes\":{\"instanceType\":\"t3.micro\"}},\"terms\":{\"OnDemand\":{}}}",
    )
    .unwrap();
    assert_eq!(price_text_from_document(&no_offer, "t3.micro").err(), Some(PriceLookupError::NoOffer));
    let no_dims = parse_json(
        "{\"product\":{\"attributes\":{\"instanceType\":\"t3.micro\"}},\"terms\":{\"OnDemand\":{\"o\":{}}}}",
    )
    .unwrap();
    assert_eq!(price_text_from_document(&no_dims, "t3.micro").err(), Some(PriceLookupError::DimensionsMissing));
    let empty_dims = parse_json(
        "{\"product\":{\"attributes\":{\"instanceType\":\"t3.micro\"}},\"terms\":{\"OnDemand\":{\"o\":{\"priceDimensions\":{}}}}}",
    )
    .unwrap();
    assert_eq!(price_text_from_document(&empty_dims, "t3.micro").err(), Some(PriceLookupError::NoDimension));
    let no_usd = parse_json(
        "{\"product\":{\"attributes\":{\"instanceType\":\"t3.micro\"}},\"terms\":{\"OnDemand\":{\"o\":{\"priceDimensions\":{\"d\":{\"pricePerUnit\":{\"EUR\":\"1\"}}}}}}}",
    )
    .unwrap();
    assert_eq!(price_text_from_document(&no_usd, "t3.micro").err(), Some(PriceLookupError::UsdMissing));
}

#[test]
fn ebs_prices_in_list_order() {
    let items = vec![s("garbage"), price_doc("x", "0.08"), s("{}"), price_doc("y", "0.005")];
    assert_eq!(ebs_price_candidates(&items), vec![s("0.08"), s("0.005")]);
    assert!(ebs_throughput_priced("gp3"));
    assert!(!ebs_throughput_priced("gp2"));
}

#[test]
fn spot_prices_keep_first_entry_per_type() {
    let e = |t: Option<&str>, p: Option<&str>, ok: bool| SpotPriceEntry {
        instance_type: t.map(s),
        price: p.map(s),
        price_parses: ok,
    };
    let entries = vec![
        e(Some("c5.large"), Some("0.03"), true),
        e(Some("c5.large"), Some("0.02"), true),
        e(Some("m5.large"), Some("oops"), false),
        e(Some("m5.large"), Some("0.04"), true),
        e(None, Some("0.01"), true),
        e(Some("r5.large"), None, true),
    ];
    assert_eq!(select_spot_prices(&entries), vec![0, 3]);
}

fn full_record(name: &str) -> InstanceTypeRecord {
    InstanceTypeRecord {
        instance_type: Some(s(name)),
        vcpu_info: Some(VCpuInfoRecord {
            default_vcpus: Some(8),
            default_cores: Some(4),
            default_threads_per_core: Some(2),
        }),
        processor_info: Some(ProcessorInfoRecord {
            manufacturer: Some(s("Intel")),
            supported_architectures: Some(vec![s("i386"), s("x86_64")]),
        }),
        gpu_info: Some(Some(vec![AcceleratorRecord {
            count: Some(1),
            manufacturer: Some(s("NVIDIA")),
            name: Some(s("T4")),
        }])),
        fpga_info: None,
        memory_size_in_mib: Some(32768),
        placement_strategies: Some(vec![s("partition"), s("cluster")]),
        usage_classes: Some(vec![s("on-demand"), s("spot")]),
        bare_metal: Some(false),
        burstable_performance_supported: None,
        efa_supported: Some(true),
    }
}

#[test]
fn instance_type_record_is_read() {
    let t = instance_type_from_record(&full_record("g4dn.2xlarge"), "us-east-1").ok().unwrap();
    assert_eq!(t.name, "g4dn.2xlarge");
    assert_eq!(t.vcpus, 8);
    assert_eq!(t.core_count, Some(4));
    assert_eq!(t.threads_per_core, Some(2));
    assert_eq!(t.cpu_type, "Intel");
    assert_eq!(t.cpu_architecture, "i386,x86_64");
    assert_eq!(t.gpu_count, 1);
    assert_eq!(t.gpu_type.as_deref(), Some("NVIDIA T4"));
    assert_eq!(t.fpga_count, 0);
    assert_eq!(t.fpga_type, None);
    assert_eq!(t.memory_in_mib, 32768);
    assert!(t.has_affinity_settings);
    assert!(t.supports_spot);
    assert!(!t.is_baremetal);
    assert!(!t.is_burstable);
    assert!(t.supports_efa);
    assert_eq!(t.region, "us-east-1");
    assert_eq!(t.provider_id, "aws");
}

#[test]
fn instance_type_skips() {
    let mut r = full_record("x");
    r.instance_type = None;
    assert!(matches!(instance_type_from_record(&r, "r"), Err(InstanceTypeSkip::NoName)));
    let mut r = full_record("x");
    r.vcpu_info = Some(VCpuInfoRecord { default_vcpus: Some(0), default_cores: None, default_threads_per_core: None });
    assert!(matches!(instance_type_from_record(&r, "r"), Err(InstanceTypeSkip::MissingVcpus { .. })));
    let mut r = full_record("x");
    r.memory_size_in_mib = None;
    match instance_type_from_record(&r, "r") {
        Err(InstanceTypeSkip::MissingMemory { name }) => assert_eq!(name, "x"),
        _ => panic!("expected a skip for memory"),
    }
}

#[test]
fn instance_type_page_keeps_usable_in_order() {
    let mut bad = full_record("bad");
    bad.memory_size_in_mib = Some(0);
    let recs = vec![full_record("a"), bad, full_record("b")];
    let out = instance_types_from_records(&recs, "eu-west-1");
    let names: Vec<&str> = out.iter().map(|t| t.name.as_str()).collect();
    assert_eq!(names, vec!["a", "b"]);
}

#[test]
fn machine_image_reading() {
    let images = vec![ImageRecord {
        name: Some(s("al2023")),
        description: None,
        owner_id: Some(s("137112412989")),
        creation_date: Some(s("2024-01-01")),
        state: Some(s("available")),
    }];
    let d = machine_image_detail("ami-1", &images).unwrap();
    assert_eq!(d.id, "ami-1");
    assert_eq!(d.name, "al2023");
    assert_eq!(d.description, "");
    assert_eq!(d.owner, "137112412989");
    assert!(machine_image_detail("ami-1", &vec![]).is_none());
    assert!(image_available(&images).is_ok());
    let pending = vec![ImageRecord { state: Some(s("pending")), ..images[0].clone_fields() }];
    match image_available(&pending) {
        Err(ImageAvailabilityError::NotAvailable { state }) => assert_eq!(state, "pending"),
        _ => panic!("expected not available"),
    }
    let unknown = vec![ImageRecord { state: None, ..images[0].clone_fields() }];
    assert!(matches!(image_available(&unknown), Err(ImageAvailabilityError::UnknownState)));
    assert!(matches!(image_available(&vec![]), Err(ImageAvailabilityError::NotFound)));
}

trait CloneFields {
    fn clone_fields(&self) -> ImageRecord;
}

impl CloneFields for ImageRecord {
    fn clone_fields(&self) -> ImageRecord {
        ImageRecord {
            name: self.name.clone(),
            description: self.description.clone(),
            owner_id: self.owner_id.clone(),
            creation_date: self.creation_date.clone(),
            state: self.state.clone(),
        }
    }
}
