//! The descriptor tree of a USB configuration, as far as discovery reads it,
//! and the walker that resolves it to an interface and two endpoints.
//!
//! The policy of the walker: first interface of the configuration, first of
//! its descriptors with at least two endpoints, first two endpoints in
//! declared order. Direction bits and transfer types are not looked at.

use vstd::prelude::*;

verus! {

/// One descriptor of an interface (an alternate setting): the interface
/// number it declares and the addresses of its endpoints in declared order.
#[derive(Debug, Clone, PartialEq, Eq)]
pub struct InterfaceDescriptor {
    pub interface_number: u8,
    pub endpoints: Vec<u8>,
}

/// An interface entry of a configuration: its descriptors in declared order.
#[derive(Debug, Clone, PartialEq, Eq)]
pub struct Interface {
    pub descriptors: Vec<InterfaceDescriptor>,
}

/// A configuration: its interface entries in declared order.
#[derive(Debug, Clone, PartialEq, Eq)]
pub struct Configuration {
    pub interfaces: Vec<Interface>,
}

/// The interface to claim and the two endpoints to talk to: `inbound` takes
/// the writes of the host, `outbound` gives what the host reads.
#[derive(Debug, Clone, Copy, PartialEq, Eq, Structural)]
pub struct Binding {
    pub interface_number: u8,
    pub inbound: u8,
    pub outbound: u8,
}

/// Why a configuration resolves to no binding.
#[derive(Debug, Clone, Copy, PartialEq, Eq, Structural)]
pub enum ResolveError {
    /// No descriptor of the first interface has two endpoints.
    NoUsableInterface,
}

/// The mathematical value of an [`InterfaceDescriptor`].
pub struct InterfaceDescriptorView {
    pub interface_number: u8,
    pub endpoints: Seq<u8>,
}

/// The mathematical value of an [`Interface`]: its descriptors.
pub type InterfaceView = Seq<InterfaceDescriptorView>;

/// The mathematical value of a [`Configuration`]: its interfaces.
pub type ConfigurationView = Seq<InterfaceView>;

impl View for InterfaceDescriptor {
    type V = InterfaceDescriptorView;

    open spec fn view(&self) -> InterfaceDescriptorView {
        InterfaceDescriptorView {
            interface_number: self.interface_number,
            endpoints: self.endpoints@,
        }
    }
}

impl View for Interface {
    type V = InterfaceView;

    open spec fn view(&self) -> InterfaceView {
        self.descriptors@.map_values(|d: InterfaceDescriptor| d@)
    }
}

impl View for Configuration {
    type V = ConfigurationView;

    open spec fn view(&self) -> ConfigurationView {
        self.interfaces@.map_values(|i: Interface| i@)
    }
}

/// A descriptor is usable when it exposes at least two endpoints.
pub open spec fn usable(d: InterfaceDescriptorView) -> bool {
    d.endpoints.len() >= 2
}

/// The binding that a usable descriptor gives: its interface number and its
/// first two endpoints, inbound first.
pub open spec fn binding_of(d: InterfaceDescriptorView) -> Binding {
    Binding { interface_number: d.interface_number, inbound: d.endpoints[0], outbound: d.endpoints[1] }
}

/// `k` is the position of the first usable descriptor of `ds`.
pub open spec fn is_first_usable(ds: InterfaceView, k: int) -> bool {
    &&& 0 <= k < ds.len()
    &&& usable(ds[k])
    &&& forall|j: int| 0 <= j < k ==> !usable(#[trigger] ds[j])
}

/// What a configuration resolves to: the binding of the first usable
/// descriptor of its first interface, if there is one.
pub open spec fn resolution(c: ConfigurationView) -> Option<Binding> {
    if c.len() > 0 && exists|k: int| is_first_usable(c[0], k) {
        Some(binding_of(c[0][choose|k: int| is_first_usable(c[0], k)]))
    } else {
        None
    }
}

/// Walks a configuration and resolves it to a binding.
pub fn resolve(configuration: &Configuration) -> (r: Result<Binding, ResolveError>)
    ensures
        match r {
            Ok(b) => resolution(configuration@) == Some(b),
            Err(e) => resolution(configuration@) is None && e == ResolveError::NoUsableInterface,
        },
{
    if configuration.interfaces.len() == 0 {
        return Err(ResolveError::NoUsableInterface);
    }
    let first = &configuration.interfaces[0];
    let mut k: usize = 0;
    while k < first.descriptors.len()
        invariant
            k <= first.descriptors.len(),
            first@.len() == first.descriptors.len(),
            configuration@.len() > 0,
            configuration@[0] == first@,
            forall|j: int| 0 <= j < k ==> !usable(#[trigger] first@[j]),
        decreases first.descriptors.len() - k,
    {
        let d = &first.descriptors[k];
        if d.endpoints.len() >= 2 {
            assert(is_first_usable(first@, k as int));
            return Ok(
                Binding {
                    interface_number: d.interface_number,
                    inbound: d.endpoints[0],
                    outbound: d.endpoints[1],
                },
            );
        }
        k += 1;
    }
    assert(forall|i: int| !is_first_usable(first@, i));
    Err(ResolveError::NoUsableInterface)
}

/// The walker binds to the first descriptor with two endpoints: if descriptor
/// `k` of the first interface has at least two endpoints and every descriptor
/// before it has fewer, the configuration resolves to the number of
/// descriptor `k` and to its first two endpoints in declared order, however
/// many endpoints the descriptors before it have.
pub proof fn resolution_takes_first_usable(c: ConfigurationView, k: int)
    requires
        c.len() > 0,
        0 <= k < c[0].len(),
        c[0][k].endpoints.len() >= 2,
        forall|j: int| 0 <= j < k ==> (#[trigger] c[0][j]).endpoints.len() < 2,
    ensures
        resolution(c) == Some(
            Binding {
                interface_number: c[0][k].interface_number,
                inbound: c[0][k].endpoints[0],
                outbound: c[0][k].endpoints[1],
            },
        ),
{
    assert(is_first_usable(c[0], k));
}

/// A configuration resolves to no binding exactly when it has no interface
/// or every descriptor of its first interface has fewer than two endpoints.
pub proof fn resolution_fails_without_usable(c: ConfigurationView)
    ensures
        resolution(c) is None <==> (c.len() == 0 || forall|j: int|
            0 <= j < c[0].len() ==> (#[trigger] c[0][j]).endpoints.len() < 2),
{
    if c.len() > 0 {
        if exists|j: int| 0 <= j < c[0].len() && (#[trigger] c[0][j]).endpoints.len() >= 2 {
            let j = choose|j: int| 0 <= j < c[0].len() && (#[trigger] c[0][j]).endpoints.len() >= 2;
            let k = first_usable_upto(c[0], j);
            assert(is_first_usable(c[0], k));
        } else {
            assert(forall|i: int| !is_first_usable(c[0], i));
        }
    }
}

/// Only the first interface of a configuration is read: two configurations
/// with the same first interface resolve alike.
pub proof fn resolution_reads_first_interface(c1: ConfigurationView, c2: ConfigurationView)
    requires
        c1.len() > 0,
        c2.len() > 0,
        c1[0] == c2[0],
    ensures
        resolution(c1) == resolution(c2),
{
}

/// The position of the first usable descriptor of `ds`, given that the one
/// at `j` is usable.
proof fn first_usable_upto(ds: InterfaceView, j: int) -> (k: int)
    requires
        0 <= j < ds.len(),
        usable(ds[j]),
    ensures
        is_first_usable(ds, k),
        k <= j,
    decreases j,
{
    if exists|i: int| 0 <= i < j && usable(#[trigger] ds[i]) {
        let i = choose|i: int| 0 <= i < j && usable(#[trigger] ds[i]);
        first_usable_upto(ds, i)
    } else {
        j
    }
}

} // verus!
