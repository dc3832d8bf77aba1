use dap_probe::channel::ProbeHandle;
use dap_probe::descriptor::{Binding, Configuration, Interface, InterfaceDescriptor};
use dap_probe::matcher::{Discovery, Matcher, Reply, Request, Step};

/// What the bus gives for one device of a scripted enumeration.
struct Scripted {
    opens: bool,
    product: Option<&'static str>,
    configuration: Option<Configuration>,
}

fn configuration(descriptors: &[(u8, &[u8])]) -> Configuration {
    Configuration {
        interfaces: vec![Interface {
            descriptors: descriptors
                .iter()
                .map(|(number, endpoints)| InterfaceDescriptor {
                    interface_number: *number,
                    endpoints: endpoints.to_vec(),
                })
                .collect(),
        }],
    }
}

fn probe(product: &'static str, descriptors: &[(u8, &[u8])]) -> Scripted {
    Scripted { opens: true, product: Some(product), configuration: Some(configuration(descriptors)) }
}

/// The handle that opening device `device` gives.
fn handle_of(device: usize) -> usize {
    1000 + device
}

/// Runs a search, answering every request from the script, and gives its
/// end and the requests that were made.
fn search(devices: &[Scripted]) -> (Discovery<usize>, Vec<Request>) {
    let mut asked = Vec::new();
    let mut step = Matcher::begin(devices.len());
    loop {
        match step {
            Step::Done(discovery) => return (discovery, asked),
            Step::Ask(matcher, request) => {
                assert_eq!(matcher.request(), request);
                asked.push(request);
                let reply = match request {
                    Request::Open { device } => {
                        assert!(matcher.device().is_none());
                        if devices[device].opens {
                            Reply::Opened(handle_of(device))
                        } else {
                            Reply::Failed
                        }
                    }
                    Request::ReadProductString { device } => {
                        assert_eq!(matcher.device(), Some(&handle_of(device)));
                        match devices[device].product {
                            Some(product) => Reply::ProductString(product.to_string()),
                            None => Reply::Failed,
                        }
                    }
                    Request::ReadConfiguration { device, configuration } => {
                        assert_eq!(configuration, 0);
                        assert_eq!(matcher.device(), Some(&handle_of(device)));
                        match &devices[device].configuration {
                            Some(c) => Reply::Configuration(c.clone()),
                            None => Reply::Failed,
                        }
                    }
                };
                step = matcher.advance(reply);
            }
        }
    }
}

fn found(discovery: Discovery<usize>) -> ProbeHandle<usize> {
    match discovery {
        Discovery::Found(handle) => handle,
        Discovery::NotFound => panic!("no probe was found"),
    }
}

#[test]
fn single_probe_is_bound_to_its_second_interface() {
    let devices = [probe("Example CMSIS-DAP", &[(0, &[0x83]), (1, &[0x81, 0x02])])];
    let (discovery, asked) = search(&devices);
    let handle = found(discovery);
    assert_eq!(handle.interface_number(), 1);
    assert_eq!(handle.binding(), Binding { interface_number: 1, inbound: 0x81, outbound: 0x02 });
    assert_eq!(handle.device_index(), 0);
    assert_eq!(*handle.device(), handle_of(0));
    assert_eq!(
        asked,
        vec![
            Request::Open { device: 0 },
            Request::ReadProductString { device: 0 },
            Request::ReadConfiguration { device: 0, configuration: 0 },
        ]
    );
}

#[test]
fn first_of_two_probes_is_bound_and_second_never_touched() {
    let devices = [
        probe("First CMSIS-DAP", &[(0, &[0x01, 0x81])]),
        probe("Second CMSIS-DAP", &[(3, &[0x02, 0x82])]),
    ];
    let (discovery, asked) = search(&devices);
    let handle = found(discovery);
    assert_eq!(handle.device_index(), 0);
    assert_eq!(*handle.device(), handle_of(0));
    assert_eq!(handle.binding(), Binding { interface_number: 0, inbound: 0x01, outbound: 0x81 });
    assert!(asked.iter().all(|request| match request {
        Request::Open { device } => *device == 0,
        Request::ReadProductString { device } => *device == 0,
        Request::ReadConfiguration { device, .. } => *device == 0,
    }));
    assert_eq!(asked.len(), 3);
}

#[test]
fn empty_enumeration_finds_nothing_and_asks_nothing() {
    let (discovery, asked) = search(&[]);
    assert!(matches!(discovery, Discovery::NotFound));
    assert!(asked.is_empty());
}

#[test]
fn device_that_cannot_be_opened_is_passed_over() {
    let devices = [
        Scripted {
            opens: false,
            product: Some("Locked CMSIS-DAP"),
            configuration: Some(configuration(&[(0, &[0x01, 0x81])])),
        },
        probe("Free CMSIS-DAP", &[(2, &[0x04, 0x84])]),
    ];
    let (discovery, asked) = search(&devices);
    let handle = found(discovery);
    assert_eq!(handle.device_index(), 1);
    assert_eq!(*handle.device(), handle_of(1));
    assert_eq!(handle.binding(), Binding { interface_number: 2, inbound: 0x04, outbound: 0x84 });
    assert_eq!(
        asked,
        vec![
            Request::Open { device: 0 },
            Request::Open { device: 1 },
            Request::ReadProductString { device: 1 },
            Request::ReadConfiguration { device: 1, configuration: 0 },
        ]
    );
}

#[test]
fn device_with_unreadable_product_string_is_passed_over() {
    let devices = [
        Scripted {
            opens: true,
            product: None,
            configuration: Some(configuration(&[(0, &[0x01, 0x81])])),
        },
        probe("Free CMSIS-DAP", &[(2, &[0x04, 0x84])]),
    ];
    let (discovery, asked) = search(&devices);
    assert_eq!(found(discovery).device_index(), 1);
    assert_eq!(
        asked,
        vec![
            Request::Open { device: 0 },
            Request::ReadProductString { device: 0 },
            Request::Open { device: 1 },
            Request::ReadProductString { device: 1 },
            Request::ReadConfiguration { device: 1, configuration: 0 },
        ]
    );
}

#[test]
fn device_with_other_product_string_is_passed_over_unread() {
    let devices = [
        probe("USB Keyboard", &[(0, &[0x01, 0x81])]),
        probe("CMSIS-DAP v1", &[(0, &[0x01, 0x81])]),
        probe("Bench CMSIS-DAP", &[(5, &[0x06, 0x86])]),
    ];
    let (discovery, asked) = search(&devices);
    let handle = found(discovery);
    assert_eq!(handle.device_index(), 2);
    assert_eq!(handle.binding(), Binding { interface_number: 5, inbound: 0x06, outbound: 0x86 });
    assert_eq!(
        asked,
        vec![
            Request::Open { device: 0 },
            Request::ReadProductString { device: 0 },
            Request::Open { device: 1 },
            Request::ReadProductString { device: 1 },
            Request::Open { device: 2 },
            Request::ReadProductString { device: 2 },
            Request::ReadConfiguration { device: 2, configuration: 0 },
        ]
    );
}

#[test]
fn probe_without_usable_interface_is_passed_over() {
    let devices = [
        probe("Bare CMSIS-DAP", &[(0, &[0x81]), (1, &[])]),
        probe("Whole CMSIS-DAP", &[(0, &[0x02, 0x83])]),
    ];
    let (discovery, _) = search(&devices);
    let handle = found(discovery);
    assert_eq!(handle.device_index(), 1);
    assert_eq!(*handle.device(), handle_of(1));
    assert_eq!(handle.binding(), Binding { interface_number: 0, inbound: 0x02, outbound: 0x83 });
}

#[test]
fn probe_with_unreadable_configuration_is_passed_over() {
    let devices = [
        Scripted { opens: true, product: Some("Mute CMSIS-DAP"), configuration: None },
        probe("Whole CMSIS-DAP", &[(0, &[0x02, 0x83])]),
    ];
    let (discovery, _) = search(&devices);
    assert_eq!(found(discovery).device_index(), 1);
}

#[test]
fn enumeration_without_usable_probe_finds_nothing() {
    let devices = [
        probe("USB Mouse", &[(0, &[0x01, 0x81])]),
        Scripted { opens: false, product: None, configuration: None },
        probe("Bare CMSIS-DAP", &[(0, &[0x81])]),
    ];
    let (discovery, asked) = search(&devices);
    assert!(matches!(discovery, Discovery::NotFound));
    assert_eq!(
        asked,
        vec![
            Request::Open { device: 0 },
            Request::ReadProductString { device: 0 },
            Request::Open { device: 1 },
            Request::Open { device: 2 },
            Request::ReadProductString { device: 2 },
            Request::ReadConfiguration { device: 2, configuration: 0 },
        ]
    );
}

#[test]
fn search_begins_by_opening_the_first_device() {
    match Matcher::<u8>::begin(3) {
        Step::Ask(matcher, request) => {
            assert_eq!(request, Request::Open { device: 0 });
            assert_eq!(matcher.request(), Request::Open { device: 0 });
        }
        Step::Done(_) => panic!("the search ended before it began"),
    }
}

#[test]
fn reply_that_does_not_answer_the_request_counts_as_failure() {
    let matcher = match Matcher::<u8>::begin(2) {
        Step::Ask(matcher, _) => matcher,
        Step::Done(_) => panic!("the search ended before it began"),
    };
    let step = matcher.advance(Reply::ProductString("Stray CMSIS-DAP".to_string()));
    let matcher = match step {
        Step::Ask(matcher, request) => {
            assert_eq!(request, Request::Open { device: 1 });
            matcher
        }
        Step::Done(_) => panic!("the second device was not tried"),
    };
    let step = matcher.advance(Reply::Configuration(configuration(&[(0, &[0x01, 0x81])])));
    assert!(matches!(step, Step::Done(Discovery::NotFound)));
}
