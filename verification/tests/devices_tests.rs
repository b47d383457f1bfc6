use hylarana::devices::{broadcast_description, Device, DeviceInfo, DeviceType, Devices, DevicesRemoveParams};
use hylarana::media::{MediaStreamDescription, MediaAudioStreamDescription};

fn device(name: &str, addrs: Vec<u32>) -> Device {
    Device {
        name: name.to_string(),
        kind: DeviceType::Linux,
        addrs,
        port: 8080,
        description: None,
    }
}

fn names(devices: &[DeviceInfo]) -> Vec<String> {
    let mut v: Vec<String> = devices.iter().map(|d| d.name.clone()).collect();
    v.sort();
    v
}

fn description() -> MediaStreamDescription {
    MediaStreamDescription {
        video: None,
        audio: Some(MediaAudioStreamDescription { sample_rate: 48_000, channels: 2, bit_rate: 64_000 }),
    }
}

#[test]
fn add_then_remove_by_name() {
    let mut d = Devices::new();
    assert!(d.get_devices().is_empty());
    d.add("laptop", device("laptop", vec![10, 11]));
    d.add("phone", device("phone", vec![20]));
    assert_eq!(names(&d.get_devices()), vec!["laptop", "phone"]);
    d.remove(DevicesRemoveParams::Name("laptop".to_string()));
    assert_eq!(names(&d.get_devices()), vec!["phone"]);
    // The addresses of the removed device no longer name anything.
    d.remove(DevicesRemoveParams::IpAddr(10));
    assert_eq!(names(&d.get_devices()), vec!["phone"]);
}

#[test]
fn remove_by_address_takes_the_whole_device() {
    let mut d = Devices::new();
    d.add("laptop", device("laptop", vec![10, 11]));
    d.add("phone", device("phone", vec![20]));
    d.remove(DevicesRemoveParams::IpAddr(11));
    assert_eq!(names(&d.get_devices()), vec!["phone"]);
    d.update_description(10, Some(description()));
    assert!(d.get_devices()[0].description.is_none());
}

#[test]
fn remove_several_names() {
    let mut d = Devices::new();
    d.add("a", device("a", vec![1]));
    d.add("b", device("b", vec![2]));
    d.add("c", device("c", vec![3]));
    let list = vec!["a".to_string(), "c".to_string(), "missing".to_string()];
    d.remove(DevicesRemoveParams::Names(&list));
    assert_eq!(names(&d.get_devices()), vec!["b"]);
}

#[test]
fn re_adding_a_name_replaces_the_device() {
    let mut d = Devices::new();
    d.add("a", device("a", vec![1]));
    let mut second = device("a", vec![2]);
    second.port = 9090;
    d.add("a", second);
    let all = d.get_devices();
    assert_eq!(all.len(), 1);
    assert_eq!(all[0].addrs, vec![2]);
    assert_eq!(all[0].port, 9090);
}

#[test]
fn description_follows_the_address() {
    let mut d = Devices::new();
    d.add("a", device("a", vec![1, 2]));
    d.update_description(2, Some(description()));
    let all = d.get_devices();
    assert_eq!(all[0].description, Some(description()));
    d.update_description(99, None);
    assert_eq!(d.get_devices()[0].description, Some(description()));
    d.update_description(1, None);
    assert_eq!(d.get_devices()[0].description, None);
}

#[test]
fn description_targets() {
    let mut d = Devices::new();
    d.add("a", device("a", vec![1]));
    d.add("b", device("b", vec![2]));
    let mut all = d.description_targets(&Vec::new());
    all.sort();
    assert_eq!(all, vec!["a", "b"]);
    let picked = d.description_targets(&vec!["b".to_string(), "x".to_string(), "b".to_string()]);
    assert_eq!(picked, vec!["b", "b"]);
}

#[test]
fn broadcast_description_is_kept_only_for_everyone() {
    assert_eq!(broadcast_description(&Vec::new(), description()), Some(description()));
    assert_eq!(broadcast_description(&vec!["a".to_string()], description()), None);
}
