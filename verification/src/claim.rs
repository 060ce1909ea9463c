//! The claiming of an interface, step by step: for each of its endpoints the
//! data node and then the status node is opened.

use std::collections::HashMap;
use std::sync::Arc;

use vstd::prelude::*;

use crate::device::{DeviceView, IllumosDevice};
use crate::errno::Errno;
use crate::error::{Error, ErrorKind, ErrorView};
use crate::interface::{has_address, IllumosInterface, IllumosUsbFds, InterfaceView};
use crate::node::{OpenBits, RawEndpoint};

verus! {

/// How far the claiming of an interface has come.
#[derive(Debug)]
pub enum ClaimStage {
    /// The data node of the next endpoint is to be opened.
    OpenDevice { endpoint: RawEndpoint, path: String },
    /// The status node of the next endpoint is to be opened.
    OpenStat { endpoint: RawEndpoint, fd: i32, path: String },
    /// All nodes are open.
    Ready,
    /// The interface could not be claimed.
    Failed { error: Error },
}

/// The claiming of an interface.
#[derive(Debug)]
pub struct Claim {
    pub device: Arc<IllumosDevice>,
    pub interface_number: u8,
    /// How many endpoints have both their nodes open.
    pub next: usize,
    pub fds: HashMap<u8, IllumosUsbFds>,
    pub stage: ClaimStage,
}

/// A [`ClaimStage`] as a mathematical value.
pub ghost enum ClaimStageView {
    OpenDevice { endpoint: RawEndpoint, path: Seq<char> },
    OpenStat { endpoint: RawEndpoint, fd: i32, path: Seq<char> },
    Ready,
    Failed { error: ErrorView },
}

/// A [`Claim`] as a mathematical value.
pub ghost struct ClaimView {
    pub device: DeviceView,
    pub interface_number: u8,
    pub next: int,
    pub fds: Map<u8, IllumosUsbFds>,
    pub stage: ClaimStageView,
}

impl View for Claim {
    type V = ClaimView;

    open spec fn view(&self) -> ClaimView {
        ClaimView {
            device: self.device@,
            interface_number: self.interface_number,
            next: self.next as int,
            fds: self.fds@,
            stage: match self.stage {
                ClaimStage::OpenDevice { endpoint, path } => ClaimStageView::OpenDevice {
                    endpoint,
                    path: path@,
                },
                ClaimStage::OpenStat { endpoint, fd, path } => ClaimStageView::OpenStat {
                    endpoint,
                    fd,
                    path: path@,
                },
                ClaimStage::Ready => ClaimStageView::Ready,
                ClaimStage::Failed { error } => ClaimStageView::Failed { error: error@ },
            },
        }
    }
}

/// What to do next to claim an interface.
#[derive(Debug)]
pub enum ClaimAction {
    /// Open this path with these flags.
    Open { path: String, flags: u32 },
    /// Nothing: the claiming has succeeded or failed.
    Finished,
}

/// The failure of an interface that the device does not have.
pub open spec fn invalid_interface() -> ErrorView {
    ErrorView::plain(ErrorKind::Other, "invalid interface number")
}

/// The failure of an endpoint without a data node.
pub open spec fn bad_device() -> ErrorView {
    ErrorView::plain(ErrorKind::Other, "bad device")
}

/// The failure of an endpoint without a status node.
pub open spec fn bad_device_stat() -> ErrorView {
    ErrorView::plain(ErrorKind::Other, "bad device stat")
}

impl ClaimView {
    /// The endpoints of the interface.
    pub open spec fn endpoints(self) -> Seq<RawEndpoint> {
        self.device.interfaces[self.interface_number]
    }

    /// The nodes of the endpoints up to the next one are open, and unless the
    /// claiming has failed, the interface exists.
    pub open spec fn wf(self) -> bool {
        &&& self.device.wf()
        &&& !(self.stage is Failed) ==> {
            &&& self.device.interfaces.contains_key(self.interface_number)
            &&& 0 <= self.next <= self.endpoints().len()
            &&& self.next < self.endpoints().len() <==> self.wants_open()
            &&& forall|address: u8| #[trigger]
                self.fds.contains_key(address) <==> has_address(
                    self.endpoints().take(self.next),
                    address,
                )
            &&& match self.stage {
                ClaimStageView::OpenDevice { endpoint, .. } => endpoint
                    == self.endpoints()[self.next],
                ClaimStageView::OpenStat { endpoint, .. } => endpoint
                    == self.endpoints()[self.next],
                _ => true,
            }
        }
    }

    /// Whether a node has to be opened next.
    pub open spec fn wants_open(self) -> bool {
        self.stage is OpenDevice || self.stage is OpenStat
    }

    /// What follows once the nodes of the first `next` endpoints are open.
    pub open spec fn at_endpoint(
        device: DeviceView,
        interface_number: u8,
        next: int,
        fds: Map<u8, IllumosUsbFds>,
    ) -> ClaimView {
        let endpoints = device.interfaces[interface_number];
        ClaimView {
            device,
            interface_number,
            next,
            fds,
            stage: if next >= endpoints.len() {
                ClaimStageView::Ready
            } else if device.paths.contains_key(endpoints[next].device_name()) {
                ClaimStageView::OpenDevice {
                    endpoint: endpoints[next],
                    path: device.paths[endpoints[next].device_name()],
                }
            } else {
                ClaimStageView::Failed { error: bad_device() }
            },
        }
    }

    /// The beginning of claiming an interface.
    pub open spec fn started(device: DeviceView, interface_number: u8) -> ClaimView {
        if device.interfaces.contains_key(interface_number) {
            ClaimView::at_endpoint(device, interface_number, 0, Map::empty())
        } else {
            ClaimView {
                device,
                interface_number,
                next: 0,
                fds: Map::empty(),
                stage: ClaimStageView::Failed { error: invalid_interface() },
            }
        }
    }

    /// What follows once the node was opened, or could not be.
    pub open spec fn after_open(self, result: Result<i32, Errno>) -> ClaimView {
        match (self.stage, result) {
            (ClaimStageView::OpenDevice { endpoint, .. }, Ok(fd)) => ClaimView {
                stage: if self.device.paths.contains_key(endpoint.stat_name()) {
                    ClaimStageView::OpenStat {
                        endpoint,
                        fd,
                        path: self.device.paths[endpoint.stat_name()],
                    }
                } else {
                    ClaimStageView::Failed { error: bad_device_stat() }
                },
                ..self
            },
            (ClaimStageView::OpenDevice { .. }, Err(errno)) => ClaimView {
                stage: ClaimStageView::Failed {
                    error: ErrorView::endpoint_open("opening device fd failed", errno),
                },
                ..self
            },
            (ClaimStageView::OpenStat { endpoint, fd, .. }, Ok(stat_fd)) => ClaimView::at_endpoint(
                self.device,
                self.interface_number,
                self.next + 1,
                self.fds.insert(endpoint.address, IllumosUsbFds { fd, stat_fd }),
            ),
            (ClaimStageView::OpenStat { .. }, Err(errno)) => ClaimView {
                stage: ClaimStageView::Failed {
                    error: ErrorView::endpoint_open("opening device stat fd failed", errno),
                },
                ..self
            },
            _ => self,
        }
    }
}

impl Claim {
    /// Turns to the next endpoint.
    fn at_endpoint(
        device: Arc<IllumosDevice>,
        interface_number: u8,
        next: usize,
        fds: HashMap<u8, IllumosUsbFds>,
    ) -> (claim: Claim)
        requires
            device@.interfaces.contains_key(interface_number),
        ensures
            claim@ == ClaimView::at_endpoint(device@, interface_number, next as int, fds@),
    {
        broadcast use vstd::std_specs::hash::group_hash_axioms;

        let stage = match device.interfaces.get(&interface_number) {
            Some(endpoints) => {
                assert(endpoints@ == device@.interfaces[interface_number]);
                if next >= endpoints.len() {
                    ClaimStage::Ready
                } else {
                    let endpoint = endpoints[next];
                    match device.paths.get(&endpoint.device_basename()) {
                        Some(path) => ClaimStage::OpenDevice { endpoint, path: path.clone() },
                        None => ClaimStage::Failed {
                            error: Error::new(ErrorKind::Other, "bad device"),
                        },
                    }
                }
            },
            None => ClaimStage::Ready,
        };
        Claim { device, interface_number, next, fds, stage }
    }

    /// What to do next.
    pub fn action(&self, bits: &OpenBits) -> (action: ClaimAction)
        ensures
            match self@.stage {
                ClaimStageView::OpenDevice { endpoint, path } => action matches ClaimAction::Open {
                    path: p,
                    flags,
                } && p@ == path && flags == bits.endpoint(endpoint.direction),
                ClaimStageView::OpenStat { endpoint, path, .. } => action matches ClaimAction::Open {
                    path: p,
                    flags,
                } && p@ == path && flags == bits.endpoint(endpoint.direction),
                ClaimStageView::Ready => action == ClaimAction::Finished,
                ClaimStageView::Failed { .. } => action == ClaimAction::Finished,
            },
    {
        match &self.stage {
            ClaimStage::OpenDevice { endpoint, path } => ClaimAction::Open {
                path: path.clone(),
                flags: endpoint.open_flags_from(bits),
            },
            ClaimStage::OpenStat { endpoint, fd: _, path } => ClaimAction::Open {
                path: path.clone(),
                flags: endpoint.open_flags_from(bits),
            },
            ClaimStage::Ready => ClaimAction::Finished,
            ClaimStage::Failed { .. } => ClaimAction::Finished,
        }
    }

    /// The node was opened as the given file, or could not be.
    pub fn opened(self, result: Result<i32, Errno>) -> (next: Claim)
        requires
            self@.wf(),
            self@.wants_open(),
        ensures
            next@ == self@.after_open(result),
            next@.wf(),
    {
        broadcast use vstd::std_specs::hash::group_hash_axioms;

        proof {
            claim_step_keeps_wf(self@, result);
        }
        let Claim { device, interface_number, next, mut fds, stage } = self;
        match stage {
            ClaimStage::OpenDevice { endpoint, path: _ } => {
                let stage = match result {
                    Ok(fd) => match device.paths.get(&endpoint.stat_basename()) {
                        Some(path) => ClaimStage::OpenStat { endpoint, fd, path: path.clone() },
                        None => ClaimStage::Failed {
                            error: Error::new(ErrorKind::Other, "bad device stat"),
                        },
                    },
                    Err(errno) => ClaimStage::Failed {
                        error: Error::endpoint_open("opening device fd failed", errno),
                    },
                };
                Claim { device, interface_number, next, fds, stage }
            },
            ClaimStage::OpenStat { endpoint, fd, path: _ } => match result {
                Ok(stat_fd) => {
                    fds.insert(endpoint.address, IllumosUsbFds { fd, stat_fd });
                    assert(next < device.interfaces@[interface_number].len());
                    Claim::at_endpoint(device, interface_number, next + 1, fds)
                },
                Err(errno) => Claim {
                    device,
                    interface_number,
                    next,
                    fds,
                    stage: ClaimStage::Failed {
                        error: Error::endpoint_open("opening device stat fd failed", errno),
                    },
                },
            },
            other => Claim { device, interface_number, next, fds, stage: other },
        }
    }

    /// The claimed interface, or why it could not be claimed.
    pub fn finish(self) -> (result: Result<IllumosInterface, Error>)
        requires
            self@.wf(),
            !self@.wants_open(),
        ensures
            match self@.stage {
                ClaimStageView::Failed { error } => result matches Err(e) && e@ == error,
                _ => result matches Ok(interface) && interface@ == (InterfaceView {
                    interface_number: self@.interface_number,
                    device: self@.device,
                    fds: self@.fds,
                    alt_setting: 0,
                    in_use: Set::empty(),
                }) && interface@.wf(),
            },
    {
        proof {
            let all = self@.endpoints();
            assert(self@.stage is Ready ==> all.take(self@.next) =~= all);
        }
        match self.stage {
            ClaimStage::Failed { error } => Err(error),
            _ => Ok(IllumosInterface::new(self.device, self.interface_number, self.fds)),
        }
    }
}

impl IllumosDevice {
    /// Begins to claim the interface with the given number.
    pub fn claim_interface(device: Arc<IllumosDevice>, interface_number: u8) -> (claim: Claim)
        requires
            device@.wf(),
        ensures
            claim@ == ClaimView::started(device@, interface_number),
            claim@.wf(),
    {
        broadcast use vstd::std_specs::hash::group_hash_axioms;

        proof {
            claim_start_is_wf(device@, interface_number);
        }
        let fds: HashMap<u8, IllumosUsbFds> = HashMap::new();
        assert(fds@ =~= Map::empty());
        if device.interfaces.contains_key(&interface_number) {
            Claim::at_endpoint(device, interface_number, 0, fds)
        } else {
            Claim {
                device,
                interface_number,
                next: 0,
                fds,
                stage: ClaimStage::Failed {
                    error: Error::new(ErrorKind::Other, "invalid interface number"),
                },
            }
        }
    }

    /// Begins to claim the interface with the given number. There is no other
    /// driver to detach from it.
    pub fn detach_and_claim_interface(device: Arc<IllumosDevice>, interface_number: u8) -> (claim:
        Claim)
        requires
            device@.wf(),
        ensures
            claim@ == ClaimView::started(device@, interface_number),
            claim@.wf(),
    {
        IllumosDevice::claim_interface(device, interface_number)
    }
}

/// Why an endpoint fails a claim, if it does, given what opening its data node
/// and its status node gives.
pub open spec fn endpoint_failure(
    paths: Map<Seq<char>, Seq<char>>,
    endpoint: RawEndpoint,
    device: Result<i32, Errno>,
    stat: Result<i32, Errno>,
) -> Option<ErrorView> {
    if !paths.contains_key(endpoint.device_name()) {
        Some(bad_device())
    } else if device is Err {
        Some(ErrorView::endpoint_open("opening device fd failed", device->Err_0))
    } else if !paths.contains_key(endpoint.stat_name()) {
        Some(bad_device_stat())
    } else if stat is Err {
        Some(ErrorView::endpoint_open("opening device stat fd failed", stat->Err_0))
    } else {
        None
    }
}

/// The open nodes of the first `n` endpoints, where `replies` are the results of
/// opening the data node and the status node of each endpoint in turn.
pub open spec fn opened_nodes(
    endpoints: Seq<RawEndpoint>,
    replies: Seq<Result<i32, Errno>>,
    n: nat,
) -> Map<u8, IllumosUsbFds>
    decreases n,
{
    if n == 0 {
        Map::empty()
    } else {
        opened_nodes(endpoints, replies, (n - 1) as nat).insert(
            endpoints[n - 1].address,
            IllumosUsbFds { fd: replies[2 * n - 2]->Ok_0, stat_fd: replies[2 * n - 1]->Ok_0 },
        )
    }
}

/// The claiming of an interface after `n` of the `replies`.
pub open spec fn claim_after(
    claim: ClaimView,
    replies: Seq<Result<i32, Errno>>,
    n: nat,
) -> ClaimView
    decreases n,
{
    if n == 0 {
        claim
    } else {
        claim_after(claim, replies, (n - 1) as nat).after_open(replies[n - 1])
    }
}

/// As long as no endpoint fails, two replies take the claiming to the next one.
proof fn claim_reaches_endpoint(
    device: DeviceView,
    interface_number: u8,
    replies: Seq<Result<i32, Errno>>,
    k: nat,
)
    requires
        device.interfaces.contains_key(interface_number),
        k <= device.interfaces[interface_number].len(),
        forall|j: int|
            0 <= j < k ==> endpoint_failure(
                device.paths,
                #[trigger] device.interfaces[interface_number][j],
                replies[2 * j],
                replies[2 * j + 1],
            ) is None,
    ensures
        claim_after(ClaimView::started(device, interface_number), replies, 2 * k)
            == ClaimView::at_endpoint(
            device,
            interface_number,
            k as int,
            opened_nodes(device.interfaces[interface_number], replies, k),
        ),
    decreases k,
{
    let start = ClaimView::started(device, interface_number);
    if k > 0 {
        let j: nat = (k - 1) as nat;
        claim_reaches_endpoint(device, interface_number, replies, j);
        let endpoint = device.interfaces[interface_number][j as int];
        let one = claim_after(start, replies, 2 * j);
        let two = one.after_open(replies[2 * j as int]);
        assert(claim_after(start, replies, (2 * j + 1) as nat) == two);
        assert(claim_after(start, replies, 2 * k) == two.after_open(replies[2 * j as int + 1]));
        assert(two.stage == (ClaimStageView::OpenStat {
            endpoint,
            fd: replies[2 * j as int]->Ok_0,
            path: device.paths[endpoint.stat_name()],
        }));
    }
}

/// The claiming of an interface as a whole. It succeeds if no endpoint fails,
/// and then holds the open nodes of every endpoint. Otherwise it fails as the
/// first endpoint that does.
pub proof fn claim_as_a_whole(
    device: DeviceView,
    interface_number: u8,
    replies: Seq<Result<i32, Errno>>,
    k: nat,
)
    requires
        device.interfaces.contains_key(interface_number),
        replies.len() == 2 * device.interfaces[interface_number].len(),
        k <= device.interfaces[interface_number].len(),
        forall|j: int|
            0 <= j < k ==> endpoint_failure(
                device.paths,
                #[trigger] device.interfaces[interface_number][j],
                replies[2 * j],
                replies[2 * j + 1],
            ) is None,
    ensures
        ({
            let start = ClaimView::started(device, interface_number);
            let endpoints = device.interfaces[interface_number];
            if k == endpoints.len() {
                let end = claim_after(start, replies, replies.len());
                &&& end.stage is Ready
                &&& end.fds == opened_nodes(endpoints, replies, k)
            } else {
                endpoint_failure(
                    device.paths,
                    endpoints[k as int],
                    replies[2 * k as int],
                    replies[2 * k as int + 1],
                ) matches Some(error) ==> claim_after(start, replies, 2 * k + 2).stage == (
                ClaimStageView::Failed { error })
            }
        }),
{
    let start = ClaimView::started(device, interface_number);
    let endpoints = device.interfaces[interface_number];
    claim_reaches_endpoint(device, interface_number, replies, k);
    if k < endpoints.len() {
        let one = claim_after(start, replies, 2 * k);
        let two = claim_after(start, replies, (2 * k + 1) as nat);
        assert(two == one.after_open(replies[2 * k as int]));
        assert(claim_after(start, replies, 2 * k + 2) == two.after_open(replies[2 * k as int + 1]));
    }
}

/// An interface that the device does not have cannot be claimed.
pub proof fn unknown_interface_cannot_be_claimed(device: DeviceView, interface_number: u8)
    requires
        !device.interfaces.contains_key(interface_number),
    ensures
        ClaimView::started(device, interface_number).stage == (ClaimStageView::Failed {
            error: invalid_interface(),
        }),
{
}

/// The claiming of an interface begins as it has to be.
proof fn claim_start_is_wf(device: DeviceView, interface_number: u8)
    requires
        device.wf(),
    ensures
        ClaimView::started(device, interface_number).wf(),
{
    let claim = ClaimView::started(device, interface_number);
    assert forall|address: u8| !has_address(#[trigger] claim.endpoints().take(0), address) by {}
}

/// Opening a node keeps the claiming as it has to be.
proof fn claim_step_keeps_wf(claim: ClaimView, result: Result<i32, Errno>)
    requires
        claim.wf(),
        claim.wants_open(),
    ensures
        claim.after_open(result).wf(),
{
    let next = claim.after_open(result);
    if next.next == claim.next + 1 {
        let all = claim.endpoints();
        let (before, after) = (all.take(claim.next), all.take(claim.next + 1));
        assert(after =~= before.push(all[claim.next]));
        assert forall|address: u8|
            has_address(after, address) == (has_address(before, address) || address
                == all[claim.next].address) by {
            if has_address(before, address) {
                let i = choose|i: int|
                    0 <= i < before.len() && (#[trigger] before[i]).address == address;
                assert(after[i].address == address);
            }
            if address == all[claim.next].address {
                assert(after[claim.next].address == address);
            }
            if has_address(after, address) && address != all[claim.next].address {
                let i = choose|i: int|
                    0 <= i < after.len() && (#[trigger] after[i]).address == address;
                assert(before[i].address == address);
            }
        }
    }
}

/// What is opened to claim an interface, in turn: as long as nothing fails, first
/// the path of the data node of each endpoint and then the path of its status
/// node. A node that the device does not list, or that cannot be opened, fails the
/// claim there, with a message that says which node it is.
pub proof fn claim_opens_nodes_in_turn(
    device: DeviceView,
    interface_number: u8,
    replies: Seq<Result<i32, Errno>>,
    k: nat,
)
    requires
        device.interfaces.contains_key(interface_number),
        k < device.interfaces[interface_number].len(),
        forall|j: int|
            0 <= j < k ==> {
                &&& device.paths.contains_key(
                    (#[trigger] device.interfaces[interface_number][j]).device_name(),
                )
                &&& device.paths.contains_key(
                    device.interfaces[interface_number][j].stat_name(),
                )
                &&& replies[2 * j] is Ok
                &&& replies[2 * j + 1] is Ok
            },
    ensures
        ({
            let start = ClaimView::started(device, interface_number);
            let endpoint = device.interfaces[interface_number][k as int];
            let one = claim_after(start, replies, 2 * k);
            let two = claim_after(start, replies, 2 * k + 1);
            let three = claim_after(start, replies, 2 * k + 2);
            if !device.paths.contains_key(endpoint.device_name()) {
                one.stage matches ClaimStageView::Failed { error } && error.kind is Other
                    && error.code is None && error.message == "bad device"@
            } else {
                &&& one.wants_open()
                &&& one.stage matches ClaimStageView::OpenDevice { endpoint: e, path } && e
                    == endpoint && path == device.paths[endpoint.device_name()]
                &&& match replies[2 * k as int] {
                    Err(errno) => two.stage matches ClaimStageView::Failed { error }
                        && error.kind is Other && error.message == "opening device fd failed"@ && (
                    error.code is Some <==> errno.raw > 0) && (error.code matches Some(c) ==> c
                        == errno.raw),
                    Ok(fd) => if !device.paths.contains_key(endpoint.stat_name()) {
                        two.stage matches ClaimStageView::Failed { error } && error.kind is Other
                            && error.code is None && error.message == "bad device stat"@
                    } else {
                        &&& two.wants_open()
                        &&& two.stage matches ClaimStageView::OpenStat { endpoint: e, fd: f, path }
                            && e == endpoint && f == fd && path
                            == device.paths[endpoint.stat_name()]
                        &&& replies[2 * k as int + 1] matches Err(errno) ==> (
                        three.stage matches ClaimStageView::Failed { error } && error.kind is Other
                            && error.message == "opening device stat fd failed"@ && (
                        error.code is Some <==> errno.raw > 0) && (error.code matches Some(c) ==> c
                            == errno.raw))
                    },
                }
            }
        }),
{
    let start = ClaimView::started(device, interface_number);
    let endpoint = device.interfaces[interface_number][k as int];
    assert forall|j: int| 0 <= j < k implies endpoint_failure(
        device.paths,
        #[trigger] device.interfaces[interface_number][j],
        replies[2 * j],
        replies[2 * j + 1],
    ) is None by {}
    claim_reaches_endpoint(device, interface_number, replies, k);
    let one = claim_after(start, replies, 2 * k);
    let two = claim_after(start, replies, 2 * k + 1);
    assert(two == one.after_open(replies[2 * k as int]));
    assert(claim_after(start, replies, 2 * k + 2) == two.after_open(replies[2 * k as int + 1]));
}

/// After the first `n` endpoints the nodes of endpoint `j` are open under its
/// address, if no later one of them has that address too.
proof fn nodes_of_endpoint_are_open(
    endpoints: Seq<RawEndpoint>,
    replies: Seq<Result<i32, Errno>>,
    n: nat,
    j: int,
)
    requires
        0 <= j < n <= endpoints.len(),
        forall|i: int| j < i < n ==> (#[trigger] endpoints[i]).address != endpoints[j].address,
    ensures
        opened_nodes(endpoints, replies, n).contains_key(endpoints[j].address),
        opened_nodes(endpoints, replies, n)[endpoints[j].address] == (IllumosUsbFds {
            fd: replies[2 * j]->Ok_0,
            stat_fd: replies[2 * j + 1]->Ok_0,
        }),
    decreases n,
{
    if j < n - 1 {
        nodes_of_endpoint_are_open(endpoints, replies, (n - 1) as nat, j);
        assert(endpoints[n - 1].address != endpoints[j].address);
    }
}

/// Nodes are open under the addresses of endpoints alone.
proof fn open_nodes_are_of_endpoints(
    endpoints: Seq<RawEndpoint>,
    replies: Seq<Result<i32, Errno>>,
    n: nat,
    address: u8,
)
    requires
        n <= endpoints.len(),
        opened_nodes(endpoints, replies, n).contains_key(address),
    ensures
        has_address(endpoints, address),
    decreases n,
{
    if n > 0 {
        if endpoints[n - 1].address != address {
            open_nodes_are_of_endpoints(endpoints, replies, (n - 1) as nat, address);
        }
    }
}

/// A claim in which nothing fails holds the open nodes of every endpoint under its
/// address, of which the first is its data node and the second its status node. Of
/// two endpoints with one address the later one counts.
pub proof fn claim_holds_nodes_of_endpoint(
    device: DeviceView,
    interface_number: u8,
    replies: Seq<Result<i32, Errno>>,
    j: int,
)
    requires
        device.interfaces.contains_key(interface_number),
        forall|i: int|
            0 <= i < device.interfaces[interface_number].len() ==> {
                &&& device.paths.contains_key(
                    (#[trigger] device.interfaces[interface_number][i]).device_name(),
                )
                &&& device.paths.contains_key(
                    device.interfaces[interface_number][i].stat_name(),
                )
                &&& replies[2 * i] is Ok
                &&& replies[2 * i + 1] is Ok
            },
        0 <= j < device.interfaces[interface_number].len(),
        forall|i: int|
            j < i < device.interfaces[interface_number].len() ==> (
            #[trigger] device.interfaces[interface_number][i]).address
                != device.interfaces[interface_number][j].address,
    ensures
        ({
            let endpoints = device.interfaces[interface_number];
            let end = claim_after(
                ClaimView::started(device, interface_number),
                replies,
                2 * endpoints.len(),
            );
            let address = endpoints[j].address;
            &&& end.stage is Ready
            &&& end.device == device
            &&& end.interface_number == interface_number
            &&& end.fds.contains_key(address)
            &&& end.fds[address].fd == replies[2 * j]->Ok_0
            &&& end.fds[address].stat_fd == replies[2 * j + 1]->Ok_0
            &&& forall|a: u8| #[trigger]
                end.fds.contains_key(a) ==> has_address(endpoints, a)
        }),
{
    let endpoints = device.interfaces[interface_number];
    assert forall|i: int| 0 <= i < endpoints.len() implies endpoint_failure(
        device.paths,
        #[trigger] device.interfaces[interface_number][i],
        replies[2 * i],
        replies[2 * i + 1],
    ) is None by {}
    claim_reaches_endpoint(device, interface_number, replies, endpoints.len());
    nodes_of_endpoint_are_open(endpoints, replies, endpoints.len(), j);
    assert forall|a: u8| #[trigger]
        opened_nodes(endpoints, replies, endpoints.len()).contains_key(a) implies has_address(
        endpoints,
        a,
    ) by {
        open_nodes_are_of_endpoints(endpoints, replies, endpoints.len(), a);
    }
}

/// The claim of an interface that the device does not have fails with a message
/// that says so. The claim of one without endpoints succeeds at once.
pub proof fn claim_begins(device: DeviceView, interface_number: u8)
    ensures
        ({
            let start = ClaimView::started(device, interface_number);
            &&& start.device == device
            &&& start.interface_number == interface_number
            &&& start.fds == Map::<u8, IllumosUsbFds>::empty()
            &&& !device.interfaces.contains_key(interface_number) ==> (
            start.stage matches ClaimStageView::Failed { error } && error.kind is Other
                && error.code is None && error.message == "invalid interface number"@)
            &&& device.interfaces.contains_key(interface_number)
                && device.interfaces[interface_number].len() == 0 ==> start.stage is Ready
        }),
{
}

/// The mathematical value of a claim has all its parts, and shows its stage with
/// all that the stage holds.
pub proof fn claim_view_is_faithful(claim: Claim)
    ensures
        claim@.device == claim.device@,
        claim@.interface_number == claim.interface_number,
        claim@.next == claim.next,
        claim@.fds == claim.fds@,
        match claim.stage {
            ClaimStage::OpenDevice { endpoint, path } => claim@.stage == (
            ClaimStageView::OpenDevice { endpoint, path: path@ }),
            ClaimStage::OpenStat { endpoint, fd, path } => claim@.stage == (
            ClaimStageView::OpenStat { endpoint, fd, path: path@ }),
            ClaimStage::Ready => claim@.stage is Ready,
            ClaimStage::Failed { error } => claim@.stage == (ClaimStageView::Failed {
                error: error@,
            }),
        },
{
}

} // verus!
