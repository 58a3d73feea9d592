use metrics_stream::encoder::{encode, Payload, Section, SectionValue};
use metrics_stream::reading::{disk_reading, CpuReading, DiskReading, DiskSpace, MemoryReading};
use serde_json::Value;
use std::collections::BTreeMap;

fn percentages(values: &[f32]) -> CpuReading {
    CpuReading::from_usages(values.iter().map(|v| v.to_bits()).collect())
}

fn document(payload: &Payload) -> Value {
    let mut object = serde_json::Map::new();
    for (key, section) in payload.sections() {
        let value = match section {
            SectionValue::Indexed(usages) => {
                let cpu: BTreeMap<usize, f32> =
                    usages.into_iter().map(f32::from_bits).enumerate().collect();
                serde_json::to_value(cpu).unwrap()
            }
            SectionValue::Counters(list) => {
                let counters: BTreeMap<String, f32> =
                    list.into_iter().map(|(name, bytes)| (name.to_string(), bytes as f32)).collect();
                serde_json::to_value(counters).unwrap()
            }
            SectionValue::Null => Value::Null,
        };
        object.insert(key.to_string(), value);
    }
    Value::Object(object)
}

fn parsed(text: &str) -> Value {
    serde_json::from_str(text).unwrap()
}

#[test]
fn section_keys() {
    assert_eq!(Section::Cpu.key(), "cpu");
    assert_eq!(Section::Ram.key(), "ram");
    assert_eq!(Section::Swap.key(), "swap");
    assert_eq!(Section::Disk.key(), "disk");
}

#[test]
fn encode_keeps_every_reading() {
    let cpu = percentages(&[12.5, 99.0]);
    let ram = MemoryReading::new(7, 5, 1);
    let swap = MemoryReading::new(3, 2, 1);
    let disk = DiskReading::from_space(DiskSpace { total: 9, available: 4 });
    let payload = encode(cpu.clone(), ram, swap, disk);
    assert_eq!(payload, Payload { cpu, ram, swap, disk });
    assert_eq!(payload.disk.map(|d| d.used()), Some(5));
}

#[test]
fn four_cores_and_one_disk() {
    let disks = vec![DiskSpace { total: 750, available: 250 }];
    let payload = encode(
        percentages(&[10.0, 20.0, 30.0, 40.0]),
        MemoryReading::new(1000, 400, 600),
        MemoryReading::new(0, 0, 0),
        disk_reading(&disks).unwrap(),
    );
    assert_eq!(payload.disk, None);
    let expected = parsed(
        r#"{
            "cpu": {"0": 10, "1": 20, "2": 30, "3": 40},
            "ram": {"total": 1000, "used": 400, "free": 600},
            "swap": {"total": 0, "used": 0, "free": 0},
            "disk": null
        }"#,
    );
    let made = document(&payload);
    assert_eq!(made["disk"], Value::Null);
    assert_eq!(made.as_object().unwrap().len(), 4);
    for key in ["cpu", "ram", "swap"] {
        let (made, expected) = (made[key].as_object().unwrap(), expected[key].as_object().unwrap());
        assert_eq!(made.len(), expected.len());
        for (name, value) in expected {
            assert_eq!(made[name].as_f64(), value.as_f64(), "{key}.{name}");
        }
    }
    assert_eq!(
        serde_json::to_string(&made).unwrap(),
        concat_all(&[
            r#"{"cpu":{"0":10.0,"1":20.0,"2":30.0,"3":40.0},"disk":null,"#,
            r#""ram":{"free":600.0,"total":1000.0,"used":400.0},"#,
            r#""swap":{"free":0.0,"total":0.0,"used":0.0}}"#,
        ])
    );
}

fn concat_all(parts: &[&str]) -> String {
    parts.iter().map(|p| p.to_string()).collect()
}

#[test]
fn second_of_two_disks() {
    let disks = vec![DiskSpace { total: 900, available: 100 }, DiskSpace { total: 500, available: 200 }];
    let payload = encode(
        percentages(&[]),
        MemoryReading::new(1, 1, 0),
        MemoryReading::new(1, 0, 1),
        disk_reading(&disks).unwrap(),
    );
    let made = document(&payload);
    let disk = made["disk"].as_object().unwrap();
    assert_eq!(disk.len(), 3);
    assert_eq!(disk["total"].as_f64(), Some(500.0));
    assert_eq!(disk["available"].as_f64(), Some(200.0));
    assert_eq!(disk["used"].as_f64(), Some(300.0));
    assert_eq!(made["cpu"], Value::Object(serde_json::Map::new()));
}

#[test]
fn memory_sections_have_three_keys() {
    let payload = encode(
        percentages(&[1.0]),
        MemoryReading::new(16, 9, 4),
        MemoryReading::new(8, 0, 8),
        None,
    );
    let made = document(&payload);
    for key in ["ram", "swap"] {
        let section = made[key].as_object().unwrap();
        let names: Vec<&str> = section.keys().map(|k| k.as_str()).collect();
        assert_eq!(names, vec!["free", "total", "used"]);
        assert!(section.values().all(|v| v.as_f64().unwrap() >= 0.0));
    }
    assert_eq!(made["ram"]["used"].as_f64(), Some(9.0));
    assert_eq!(made["swap"]["free"].as_f64(), Some(8.0));
}

#[test]
fn cpu_section_has_one_key_for_each_core() {
    let values: Vec<f32> = (0..12).map(|i| i as f32 * 8.25).collect();
    let payload =
        encode(percentages(&values), MemoryReading::new(0, 0, 0), MemoryReading::new(0, 0, 0), None);
    let made = document(&payload);
    let cpu = made["cpu"].as_object().unwrap();
    assert_eq!(cpu.len(), 12);
    for (i, value) in values.iter().enumerate() {
        assert_eq!(cpu[&i.to_string()].as_f64(), Some(*value as f64));
    }
    assert!(payload.cpu.in_range());
}

#[test]
fn sections_come_in_order_with_their_values() {
    let payload = encode(
        percentages(&[10.0, 20.0]),
        MemoryReading::new(1000, 400, 600),
        MemoryReading::new(8, 3, 5),
        DiskReading::from_space(DiskSpace { total: 500, available: 200 }),
    );
    assert_eq!(
        payload.sections(),
        vec![
            ("cpu", SectionValue::Indexed(vec![10.0f32.to_bits(), 20.0f32.to_bits()])),
            ("ram", SectionValue::Counters(vec![("total", 1000), ("used", 400), ("free", 600)])),
            ("swap", SectionValue::Counters(vec![("total", 8), ("used", 3), ("free", 5)])),
            (
                "disk",
                SectionValue::Counters(vec![("total", 500), ("available", 200), ("used", 300)])
            ),
        ]
    );
}

#[test]
fn sections_without_cores_and_disk() {
    let payload =
        encode(percentages(&[]), MemoryReading::new(0, 0, 0), MemoryReading::new(0, 0, 0), None);
    let sections = payload.sections();
    assert_eq!(sections.len(), 4);
    assert_eq!(sections[0], ("cpu", SectionValue::Indexed(vec![])));
    assert_eq!(sections[3], ("disk", SectionValue::Null));
}
