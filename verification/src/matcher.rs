//! Discovery: the search through the enumerated devices for the first probe.
//!
//! The matcher makes the decisions and leaves the bus to the caller. It asks
//! for one operation at a time (open a device, read its product string, read
//! its first configuration) and takes what the operation gave. A device that
//! cannot be opened or read, whose product string does not name a probe, or
//! whose configuration resolves to no binding is passed over; the first
//! device that stands all of it is bound, and no later device is touched.

use crate::channel::{ProbeHandle, ProbeHandleView};
use crate::descriptor::{resolution, resolve, Binding, Configuration, ConfigurationView};
use crate::product::{is_probe_name, names_probe};
use vstd::prelude::*;

verus! {

/// An operation on the bus that the matcher asks for. `device` is the place
/// of the device in the enumeration.
#[derive(Debug, Clone, Copy, PartialEq, Eq, Structural)]
pub enum Request {
    /// Open the device.
    Open { device: usize },
    /// Read the product string of the device just opened, at the index that
    /// its device descriptor declares.
    ReadProductString { device: usize },
    /// Read the configuration descriptor at index `configuration` of the
    /// device.
    ReadConfiguration { device: usize, configuration: u8 },
}

/// What an operation gave.
#[derive(Debug)]
pub enum Reply<H> {
    /// The device is open; `H` is the handle to it.
    Opened(H),
    /// The product string of the device.
    ProductString(String),
    /// The configuration that was asked for.
    Configuration(Configuration),
    /// The operation failed.
    Failed,
}

/// How discovery ended.
#[derive(Debug)]
pub enum Discovery<H> {
    /// A probe was found and bound.
    Found(ProbeHandle<H>),
    /// No device is a usable probe.
    NotFound,
}

/// What the matcher is waiting for, and the open device it holds meanwhile.
#[derive(Debug)]
pub enum Stage<H> {
    /// For the device to be opened.
    Opening,
    /// For the product string of the open device.
    Naming(H),
    /// For the first configuration of the open device.
    Walking(H),
}

/// A search in progress: it has passed over the devices before `index` and
/// waits for a reply about the device at `index`.
#[derive(Debug)]
pub struct Matcher<H> {
    device_count: usize,
    index: usize,
    stage: Stage<H>,
}

/// The next thing to do: perform a request and hand its reply to the
/// matcher, or stop with the result.
#[derive(Debug)]
pub enum Step<H> {
    Ask(Matcher<H>, Request),
    Done(Discovery<H>),
}

/// The mathematical value of a [`Reply`].
pub enum ReplyView<H> {
    Opened(H),
    ProductString(Seq<char>),
    Configuration(ConfigurationView),
    Failed,
}

/// The mathematical value of a [`Discovery`].
pub enum DiscoveryView<H> {
    Found(ProbeHandleView<H>),
    NotFound,
}

/// The mathematical value of a [`Matcher`].
pub struct MatcherView<H> {
    pub device_count: usize,
    pub index: usize,
    pub stage: Stage<H>,
}

/// The mathematical value of a [`Step`].
pub enum StepView<H> {
    Ask(MatcherView<H>, Request),
    Done(DiscoveryView<H>),
}

impl<H> View for Reply<H> {
    type V = ReplyView<H>;

    open spec fn view(&self) -> ReplyView<H> {
        match *self {
            Reply::Opened(h) => ReplyView::Opened(h),
            Reply::ProductString(s) => ReplyView::ProductString(s@),
            Reply::Configuration(c) => ReplyView::Configuration(c@),
            Reply::Failed => ReplyView::Failed,
        }
    }
}

impl<H> View for Discovery<H> {
    type V = DiscoveryView<H>;

    open spec fn view(&self) -> DiscoveryView<H> {
        match *self {
            Discovery::Found(h) => DiscoveryView::Found(h@),
            Discovery::NotFound => DiscoveryView::NotFound,
        }
    }
}

impl<H> View for Matcher<H> {
    type V = MatcherView<H>;

    closed spec fn view(&self) -> MatcherView<H> {
        MatcherView { device_count: self.device_count, index: self.index, stage: self.stage }
    }
}

impl<H> View for Step<H> {
    type V = StepView<H>;

    open spec fn view(&self) -> StepView<H> {
        match *self {
            Step::Ask(m, request) => StepView::Ask(m@, request),
            Step::Done(d) => StepView::Done(d@),
        }
    }
}

impl Request {
    /// The device that the request is about.
    pub open spec fn device(self) -> usize {
        match self {
            Request::Open { device } => device,
            Request::ReadProductString { device } => device,
            Request::ReadConfiguration { device, .. } => device,
        }
    }
}

/// The request that a matcher waits on. Only the first configuration of a
/// device is ever read.
pub open spec fn pending<H>(m: MatcherView<H>) -> Request {
    match m.stage {
        Stage::Opening => Request::Open { device: m.index },
        Stage::Naming(_) => Request::ReadProductString { device: m.index },
        Stage::Walking(_) => Request::ReadConfiguration { device: m.index, configuration: 0 },
    }
}

/// The start of a search through `device_count` devices: the first device
/// is to be opened, or there is none.
pub open spec fn begin_spec<H>(device_count: usize) -> StepView<H> {
    if device_count > 0 {
        StepView::Ask(
            MatcherView { device_count, index: 0, stage: Stage::Opening },
            Request::Open { device: 0 },
        )
    } else {
        StepView::Done(DiscoveryView::NotFound)
    }
}

/// The step that passes over the current device: the next device is to be
/// opened, or the search ends without a probe.
pub open spec fn pass_over<H>(m: MatcherView<H>) -> StepView<H> {
    if m.index + 1 < m.device_count {
        StepView::Ask(
            MatcherView {
                device_count: m.device_count,
                index: (m.index + 1) as usize,
                stage: Stage::Opening,
            },
            Request::Open { device: (m.index + 1) as usize },
        )
    } else {
        StepView::Done(DiscoveryView::NotFound)
    }
}

/// The step that follows a reply. A reply that does not answer the pending
/// request counts as a failure.
pub open spec fn advance_spec<H>(m: MatcherView<H>, reply: ReplyView<H>) -> StepView<H> {
    match (m.stage, reply) {
        (Stage::Opening, ReplyView::Opened(h)) => StepView::Ask(
            MatcherView { device_count: m.device_count, index: m.index, stage: Stage::Naming(h) },
            Request::ReadProductString { device: m.index },
        ),
        (Stage::Naming(h), ReplyView::ProductString(product)) => if names_probe(product) {
            StepView::Ask(
                MatcherView {
                    device_count: m.device_count,
                    index: m.index,
                    stage: Stage::Walking(h),
                },
                Request::ReadConfiguration { device: m.index, configuration: 0 },
            )
        } else {
            pass_over(m)
        },
        (Stage::Walking(h), ReplyView::Configuration(c)) => match resolution(c) {
            Some(binding) => StepView::Done(
                DiscoveryView::Found(
                    ProbeHandleView { device: h, device_index: m.index, binding },
                ),
            ),
            None => pass_over(m),
        },
        _ => pass_over(m),
    }
}

impl<H> Matcher<H> {
    #[verifier::type_invariant]
    spec fn within_enumeration(self) -> bool {
        self.index < self.device_count
    }

    /// Begins a search through an enumeration of `device_count` devices.
    pub fn begin(device_count: usize) -> (step: Step<H>)
        ensures
            step@ == begin_spec::<H>(device_count),
            step matches Step::Ask(matcher, request) ==> request == pending(matcher@)
                && request.device() < device_count,
    {
        if device_count > 0 {
            Step::Ask(
                Matcher { device_count, index: 0, stage: Stage::Opening },
                Request::Open { device: 0 },
            )
        } else {
            Step::Done(Discovery::NotFound)
        }
    }

    /// The request that the matcher waits on.
    pub fn request(&self) -> (request: Request)
        ensures
            request == pending(self@),
    {
        match &self.stage {
            Stage::Opening => Request::Open { device: self.index },
            Stage::Naming(_) => Request::ReadProductString { device: self.index },
            Stage::Walking(_) => Request::ReadConfiguration { device: self.index, configuration: 0 },
        }
    }

    /// The open device that the matcher holds while it reads from it.
    pub fn device(&self) -> (device: Option<&H>)
        ensures
            match self@.stage {
                Stage::Opening => device is None,
                Stage::Naming(h) => device == Some(&h),
                Stage::Walking(h) => device == Some(&h),
            },
    {
        match &self.stage {
            Stage::Opening => None,
            Stage::Naming(h) => Some(h),
            Stage::Walking(h) => Some(h),
        }
    }

    /// Passes over the current device.
    fn next_device(self) -> (step: Step<H>)
        ensures
            step@ == pass_over(self@),
    {
        proof {
            use_type_invariant(&self);
        }
        if self.index + 1 < self.device_count {
            let index = self.index + 1;
            Step::Ask(
                Matcher { device_count: self.device_count, index, stage: Stage::Opening },
                Request::Open { device: index },
            )
        } else {
            Step::Done(Discovery::NotFound)
        }
    }

    /// Takes the reply to the pending request and decides what comes next.
    pub fn advance(self, reply: Reply<H>) -> (step: Step<H>)
        ensures
            step@ == advance_spec(self@, reply@),
            step matches Step::Ask(matcher, request) ==> request == pending(matcher@)
                && request.device() < self@.device_count,
    {
        proof {
            use_type_invariant(&self);
        }
        let Matcher { device_count, index, stage } = self;
        match (stage, reply) {
            (Stage::Opening, Reply::Opened(h)) => Step::Ask(
                Matcher { device_count, index, stage: Stage::Naming(h) },
                Request::ReadProductString { device: index },
            ),
            (Stage::Naming(h), Reply::ProductString(product)) => {
                if is_probe_name(product.as_str()) {
                    Step::Ask(
                        Matcher { device_count, index, stage: Stage::Walking(h) },
                        Request::ReadConfiguration { device: index, configuration: 0 },
                    )
                } else {
                    (Matcher { device_count, index, stage: Stage::Opening }).next_device()
                }
            },
            (Stage::Walking(h), Reply::Configuration(c)) => {
                match resolve(&c) {
                    Ok(binding) => Step::Done(
                        Discovery::Found(ProbeHandle::bind(h, index, binding)),
                    ),
                    Err(_) => (Matcher { device_count, index, stage: Stage::Opening }).next_device(),
                }
            },
            _ => (Matcher { device_count, index, stage: Stage::Opening }).next_device(),
        }
    }
}

/// What the bus would give for one device of an enumeration.
pub struct DeviceModel<H> {
    /// The handle that opening the device gives, if it can be opened.
    pub handle: Option<H>,
    /// The product string, if it can be read.
    pub product: Option<Seq<char>>,
    /// The first configuration, if it can be read.
    pub configuration: Option<ConfigurationView>,
}

/// The reply of a device to a request.
pub open spec fn answer<H>(d: DeviceModel<H>, request: Request) -> ReplyView<H> {
    match request {
        Request::Open { .. } => match d.handle {
            Some(h) => ReplyView::Opened(h),
            None => ReplyView::Failed,
        },
        Request::ReadProductString { .. } => match d.product {
            Some(product) => ReplyView::ProductString(product),
            None => ReplyView::Failed,
        },
        Request::ReadConfiguration { .. } => match d.configuration {
            Some(c) => ReplyView::Configuration(c),
            None => ReplyView::Failed,
        },
    }
}

/// The binding that a device offers: it can be opened, its product string
/// can be read and names a probe, its first configuration can be read and
/// resolves to that binding.
pub open spec fn candidate<H>(d: DeviceModel<H>) -> Option<Binding> {
    if d.handle is Some && d.product is Some && names_probe(d.product->0)
        && d.configuration is Some {
        resolution(d.configuration->0)
    } else {
        None
    }
}

/// A bound on the requests that are still to come after a step.
pub open spec fn effort<H>(step: StepView<H>) -> nat {
    match step {
        StepView::Done(_) => 0,
        StepView::Ask(m, _) => {
            let devices_left: nat = if m.index < m.device_count {
                (m.device_count - m.index) as nat
            } else {
                0
            };
            let replies_left: nat = match m.stage {
                Stage::Opening => 3,
                Stage::Naming(_) => 2,
                Stage::Walking(_) => 1,
            };
            3 * devices_left + replies_left
        },
    }
}

/// The end of a search that goes on from `step` when every request is
/// answered by the device it names.
pub open spec fn run<H>(step: StepView<H>, devices: Seq<DeviceModel<H>>) -> DiscoveryView<H>
    decreases effort(step),
{
    match step {
        StepView::Done(d) => d,
        StepView::Ask(m, request) => run(
            advance_spec(m, answer(devices[request.device() as int], request)),
            devices,
        ),
    }
}

/// The requests that such a search makes, in order.
pub open spec fn asked<H>(step: StepView<H>, devices: Seq<DeviceModel<H>>) -> Seq<Request>
    decreases effort(step),
{
    match step {
        StepView::Done(_) => Seq::empty(),
        StepView::Ask(m, request) => seq![request] + asked(
            advance_spec(m, answer(devices[request.device() as int], request)),
            devices,
        ),
    }
}

/// `outcome` binds the first device of `devices` that offers a binding, with
/// the handle that opening it gave, or finds nothing where no device offers
/// one.
pub open spec fn binds_first_candidate<H>(
    devices: Seq<DeviceModel<H>>,
    outcome: DiscoveryView<H>,
) -> bool {
    match outcome {
        DiscoveryView::Found(h) => {
            &&& h.device_index < devices.len()
            &&& devices[h.device_index as int].handle == Some(h.device)
            &&& candidate(devices[h.device_index as int]) == Some(h.binding)
            &&& forall|j: int| 0 <= j < h.device_index ==> candidate(#[trigger] devices[j]) is None
        },
        DiscoveryView::NotFound => forall|j: int|
            0 <= j < devices.len() ==> candidate(#[trigger] devices[j]) is None,
    }
}

/// The last device that a search with this outcome may touch.
pub open spec fn last_touched<H>(devices: Seq<DeviceModel<H>>, outcome: DiscoveryView<H>) -> int {
    match outcome {
        DiscoveryView::Found(h) => h.device_index as int,
        DiscoveryView::NotFound => devices.len() - 1,
    }
}

/// Discovery is selective: whatever the enumeration holds, the search binds
/// the first device, in enumeration order, whose product string ends with
/// the marker and whose first configuration resolves to a binding, and it
/// finds nothing exactly when there is no such device.
pub proof fn discovery_binds_first_candidate<H>(devices: Seq<DeviceModel<H>>)
    requires
        devices.len() <= usize::MAX,
    ensures
        binds_first_candidate(devices, run(begin_spec(devices.len() as usize), devices)),
{
    if devices.len() > 0 {
        let m = MatcherView::<H> {
            device_count: devices.len() as usize,
            index: 0,
            stage: Stage::Opening,
        };
        lemma_search(m, devices);
    }
}

/// Discovery is lazy: the search asks about the devices in enumeration
/// order and about none after the one it binds.
pub proof fn discovery_stops_at_match<H>(devices: Seq<DeviceModel<H>>)
    requires
        devices.len() <= usize::MAX,
    ensures
        ({
            let start = begin_spec::<H>(devices.len() as usize);
            let requests = asked(start, devices);
            &&& forall|i: int|
                0 <= i < requests.len() ==> (#[trigger] requests[i]).device() <= last_touched(
                    devices,
                    run(start, devices),
                )
            &&& forall|i: int, j: int|
                0 <= i <= j < requests.len() ==> (#[trigger] requests[i]).device()
                    <= (#[trigger] requests[j]).device()
        }),
{
    if devices.len() > 0 {
        let m = MatcherView::<H> {
            device_count: devices.len() as usize,
            index: 0,
            stage: Stage::Opening,
        };
        lemma_search(m, devices);
    }
}

/// The state of a search agrees with the enumeration: no device before the
/// current one offers a binding, and what the matcher holds of the current
/// one is what that device gave.
spec fn agrees<H>(m: MatcherView<H>, devices: Seq<DeviceModel<H>>) -> bool {
    &&& m.device_count == devices.len()
    &&& m.index < m.device_count
    &&& forall|j: int| 0 <= j < m.index ==> candidate(#[trigger] devices[j]) is None
    &&& match m.stage {
        Stage::Opening => true,
        Stage::Naming(h) => devices[m.index as int].handle == Some(h),
        Stage::Walking(h) => {
            &&& devices[m.index as int].handle == Some(h)
            &&& devices[m.index as int].product is Some
            &&& names_probe(devices[m.index as int].product->0)
        },
    }
}

proof fn lemma_search<H>(m: MatcherView<H>, devices: Seq<DeviceModel<H>>)
    requires
        agrees(m, devices),
    ensures
        ({
            let step = StepView::Ask(m, pending(m));
            let requests = asked(step, devices);
            &&& binds_first_candidate(devices, run(step, devices))
            &&& forall|i: int|
                0 <= i < requests.len() ==> m.index <= (#[trigger] requests[i]).device()
                    <= last_touched(devices, run(step, devices))
            &&& forall|i: int, j: int|
                0 <= i <= j < requests.len() ==> (#[trigger] requests[i]).device()
                    <= (#[trigger] requests[j]).device()
        }),
    decreases effort(StepView::Ask(m, pending(m))),
{
    let request = pending(m);
    let step = StepView::Ask(m, request);
    let next = advance_spec(m, answer(devices[m.index as int], request));
    assert(run(step, devices) == run(next, devices));
    assert(asked(step, devices) == seq![request] + asked(next, devices));
    match next {
        StepView::Done(d) => {
            assert(run(next, devices) == d);
            assert(asked(next, devices) == Seq::<Request>::empty());
        },
        StepView::Ask(m2, request2) => {
            assert(request2 == pending(m2));
            assert(agrees(m2, devices));
            lemma_search(m2, devices);
        },
    }
}

} // verus!
