//! The opening of a device, step by step: its control nodes, its descriptors,
//! and the endpoints of its interfaces.

use vstd::prelude::*;

use crate::descriptor::{DescriptorType, InterfaceDescriptor};
use crate::device::{
    collect_interfaces, interface_map, interface_map_is_by_number, DeviceView, IllumosDevice,
};
use crate::errno::{Errno, Errnos};
use crate::error::{control_open_errors, Error, ErrorKind, ErrorView};
use crate::node::OpenBits;
use crate::paths::DevfsPath;

verus! {

/// How far the opening of a device has come.
#[derive(Debug)]
pub enum OpeningStage {
    /// The control node is to be opened.
    OpenControl { path: String },
    /// The status node of the control pipe is to be opened.
    OpenStat { fd: i32, path: String },
    /// The device descriptor is to be read.
    ReadDevice { fd: i32, stat_fd: i32 },
    /// The value of the active configuration is to be read.
    ReadActive { fd: i32, stat_fd: i32, device_descriptor: Vec<u8> },
    /// The first configuration descriptor is to be read.
    ReadConfig { fd: i32, stat_fd: i32, device_descriptor: Vec<u8>, active_config: u8 },
    /// The configuration descriptor is to be parsed.
    ParseConfig {
        fd: i32,
        stat_fd: i32,
        device_descriptor: Vec<u8>,
        active_config: u8,
        config_descriptors: Vec<u8>,
    },
    /// The device is open.
    Ready { device: IllumosDevice },
    /// The device could not be opened.
    Failed { error: Error },
}

/// The opening of a device.
#[derive(Debug)]
pub struct Opening {
    pub paths: DevfsPath,
    pub stage: OpeningStage,
}

/// An [`OpeningStage`] as a mathematical value, with the paths of the device
/// where they are still needed.
pub ghost enum OpeningView {
    OpenControl { paths: Map<Seq<char>, Seq<char>>, path: Seq<char> },
    OpenStat { paths: Map<Seq<char>, Seq<char>>, fd: i32, path: Seq<char> },
    ReadDevice { paths: Map<Seq<char>, Seq<char>>, fd: i32, stat_fd: i32 },
    ReadActive {
        paths: Map<Seq<char>, Seq<char>>,
        fd: i32,
        stat_fd: i32,
        device_descriptor: Seq<u8>,
    },
    ReadConfig {
        paths: Map<Seq<char>, Seq<char>>,
        fd: i32,
        stat_fd: i32,
        device_descriptor: Seq<u8>,
        active_config: u8,
    },
    ParseConfig {
        paths: Map<Seq<char>, Seq<char>>,
        fd: i32,
        stat_fd: i32,
        device_descriptor: Seq<u8>,
        active_config: u8,
        config_descriptors: Seq<u8>,
    },
    Ready { device: DeviceView },
    Failed { error: ErrorView },
}

impl View for Opening {
    type V = OpeningView;

    open spec fn view(&self) -> OpeningView {
        let paths = self.paths@;
        match self.stage {
            OpeningStage::OpenControl { path } => OpeningView::OpenControl { paths, path: path@ },
            OpeningStage::OpenStat { fd, path } => OpeningView::OpenStat { paths, fd, path: path@ },
            OpeningStage::ReadDevice { fd, stat_fd } => OpeningView::ReadDevice {
                paths,
                fd,
                stat_fd,
            },
            OpeningStage::ReadActive { fd, stat_fd, device_descriptor } => OpeningView::ReadActive {
                paths,
                fd,
                stat_fd,
                device_descriptor: device_descriptor@,
            },
            OpeningStage::ReadConfig { fd, stat_fd, device_descriptor, active_config } =>
                OpeningView::ReadConfig {
                paths,
                fd,
                stat_fd,
                device_descriptor: device_descriptor@,
                active_config,
            },
            OpeningStage::ParseConfig {
                fd,
                stat_fd,
                device_descriptor,
                active_config,
                config_descriptors,
            } => OpeningView::ParseConfig {
                paths,
                fd,
                stat_fd,
                device_descriptor: device_descriptor@,
                active_config,
                config_descriptors: config_descriptors@,
            },
            OpeningStage::Ready { device } => OpeningView::Ready { device: device@ },
            OpeningStage::Failed { error } => OpeningView::Failed { error: error@ },
        }
    }
}

/// What to do next to open a device.
#[derive(Debug)]
pub enum OpeningAction {
    /// Open this path with these flags.
    Open { path: String, flags: u32 },
    /// Read this descriptor on the control node.
    GetDescriptor(DescriptorType),
    /// Read the value of the active configuration on the control node.
    GetConfiguration,
    /// Parse the configuration descriptor that was read.
    ParseConfiguration,
    /// Nothing: the opening has succeeded or failed.
    Finished,
}

/// The failure of a device without the nodes of the driver.
pub open spec fn not_ugen() -> ErrorView {
    ErrorView::plain(ErrorKind::Other, "not ugen")
}

impl OpeningView {
    /// The beginning of opening a device with these nodes.
    pub open spec fn started(paths: Map<Seq<char>, Seq<char>>) -> OpeningView {
        if paths.contains_key("cntrl0"@) {
            OpeningView::OpenControl { paths, path: paths["cntrl0"@] }
        } else {
            OpeningView::Failed { error: not_ugen() }
        }
    }

    /// A device that is open lists its endpoints by interface.
    pub open spec fn wf(self) -> bool {
        self matches OpeningView::Ready { device } ==> device.wf()
    }

    /// Whether a node has to be opened next.
    pub open spec fn wants_open(self) -> bool {
        self is OpenControl || self is OpenStat
    }

    /// Whether a descriptor has to be read next.
    pub open spec fn wants_descriptor(self) -> bool {
        self is ReadDevice || self is ReadConfig
    }

    /// What follows once the node was opened, or could not be.
    pub open spec fn after_open(self, result: Result<i32, Errno>, errnos: Errnos) -> OpeningView {
        match (self, result) {
            (OpeningView::OpenControl { paths, .. }, Ok(fd)) => if paths.contains_key(
                "cntrl0stat"@,
            ) {
                OpeningView::OpenStat { paths, fd, path: paths["cntrl0stat"@] }
            } else {
                OpeningView::Failed { error: not_ugen() }
            },
            (OpeningView::OpenStat { paths, fd, .. }, Ok(stat_fd)) => OpeningView::ReadDevice {
                paths,
                fd,
                stat_fd,
            },
            (_, Err(errno)) => OpeningView::Failed {
                error: ErrorView::control_open(errno, errnos),
            },
            _ => self,
        }
    }

    /// What follows once the descriptor was read.
    pub open spec fn after_descriptor(self, bytes: Seq<u8>) -> OpeningView {
        match self {
            OpeningView::ReadDevice { paths, fd, stat_fd } => OpeningView::ReadActive {
                paths,
                fd,
                stat_fd,
                device_descriptor: bytes,
            },
            OpeningView::ReadConfig { paths, fd, stat_fd, device_descriptor, active_config } =>
                OpeningView::ParseConfig {
                paths,
                fd,
                stat_fd,
                device_descriptor,
                active_config,
                config_descriptors: bytes,
            },
            _ => self,
        }
    }

    /// What follows once the value of the active configuration was read.
    pub open spec fn after_configuration(self, value: u8) -> OpeningView {
        match self {
            OpeningView::ReadActive { paths, fd, stat_fd, device_descriptor } =>
                OpeningView::ReadConfig {
                paths,
                fd,
                stat_fd,
                device_descriptor,
                active_config: value,
            },
            _ => self,
        }
    }

    /// What follows once the configuration descriptor was parsed.
    pub open spec fn after_parse(self, interfaces: Seq<InterfaceDescriptor>) -> OpeningView {
        match self {
            OpeningView::ParseConfig {
                paths,
                fd,
                stat_fd,
                device_descriptor,
                active_config,
                config_descriptors,
            } => OpeningView::Ready {
                device: DeviceView {
                    fd,
                    stat_fd,
                    device_descriptor,
                    config_descriptors,
                    active_config,
                    paths,
                    interfaces: interface_map(interfaces),
                },
            },
            _ => self,
        }
    }
}

impl IllumosDevice {
    /// Begins to open the device with these nodes.
    pub fn from_device_info(paths: DevfsPath) -> (opening: Opening)
        ensures
            opening@ == OpeningView::started(paths@),
            opening@.wf(),
    {
        let stage = match paths.get(&String::from_str("cntrl0")) {
            Some(path) => OpeningStage::OpenControl { path: path.clone() },
            None => OpeningStage::Failed { error: Error::new(ErrorKind::Other, "not ugen") },
        };
        Opening { paths, stage }
    }
}

impl Opening {
    /// What to do next.
    pub fn action(&self, bits: &OpenBits) -> (action: OpeningAction)
        ensures
            match self@ {
                OpeningView::OpenControl { path, .. } => action matches OpeningAction::Open {
                    path: p,
                    flags,
                } && p@ == path && flags == bits.control(),
                OpeningView::OpenStat { path, .. } => action matches OpeningAction::Open {
                    path: p,
                    flags,
                } && p@ == path && flags == bits.control(),
                OpeningView::ReadDevice { .. } => action == OpeningAction::GetDescriptor(
                    DescriptorType::Device,
                ),
                OpeningView::ReadActive { .. } => action == OpeningAction::GetConfiguration,
                OpeningView::ReadConfig { .. } => action == OpeningAction::GetDescriptor(
                    DescriptorType::Configuration { index: 0 },
                ),
                OpeningView::ParseConfig { .. } => action == OpeningAction::ParseConfiguration,
                OpeningView::Ready { .. } => action == OpeningAction::Finished,
                OpeningView::Failed { .. } => action == OpeningAction::Finished,
            },
    {
        match &self.stage {
            OpeningStage::OpenControl { path } => OpeningAction::Open {
                path: path.clone(),
                flags: bits.rdwr | bits.cloexec,
            },
            OpeningStage::OpenStat { fd: _, path } => OpeningAction::Open {
                path: path.clone(),
                flags: bits.rdwr | bits.cloexec,
            },
            OpeningStage::ReadDevice { .. } => OpeningAction::GetDescriptor(
                DescriptorType::Device,
            ),
            OpeningStage::ReadActive { .. } => OpeningAction::GetConfiguration,
            OpeningStage::ReadConfig { .. } => OpeningAction::GetDescriptor(
                DescriptorType::Configuration { index: 0 },
            ),
            OpeningStage::ParseConfig { .. } => OpeningAction::ParseConfiguration,
            OpeningStage::Ready { .. } => OpeningAction::Finished,
            OpeningStage::Failed { .. } => OpeningAction::Finished,
        }
    }

    /// The node was opened as the given file, or could not be.
    pub fn opened(self, result: Result<i32, Errno>, errnos: &Errnos) -> (next: Opening)
        requires
            self@.wants_open(),
        ensures
            next@ == self@.after_open(result, *errnos),
            next@.wf(),
    {
        let Opening { paths, stage } = self;
        let stage = match result {
            Err(errno) => OpeningStage::Failed { error: Error::control_open(errno, errnos) },
            Ok(opened) => match stage {
                OpeningStage::OpenStat { fd, path: _ } => OpeningStage::ReadDevice {
                    fd,
                    stat_fd: opened,
                },
                _ => match paths.get(&String::from_str("cntrl0stat")) {
                    Some(path) => OpeningStage::OpenStat { fd: opened, path: path.clone() },
                    None => OpeningStage::Failed {
                        error: Error::new(ErrorKind::Other, "not ugen"),
                    },
                },
            },
        };
        Opening { paths, stage }
    }

    /// The descriptor was read.
    pub fn descriptor_read(self, bytes: Vec<u8>) -> (next: Opening)
        requires
            self@.wants_descriptor(),
        ensures
            next@ == self@.after_descriptor(bytes@),
            next@.wf(),
    {
        let Opening { paths, stage } = self;
        let stage = match stage {
            OpeningStage::ReadDevice { fd, stat_fd } => OpeningStage::ReadActive {
                fd,
                stat_fd,
                device_descriptor: bytes,
            },
            OpeningStage::ReadConfig { fd, stat_fd, device_descriptor, active_config } =>
                OpeningStage::ParseConfig {
                fd,
                stat_fd,
                device_descriptor,
                active_config,
                config_descriptors: bytes,
            },
            other => other,
        };
        Opening { paths, stage }
    }

    /// The value of the active configuration was read.
    pub fn configuration_read(self, value: u8) -> (next: Opening)
        requires
            self@ is ReadActive,
        ensures
            next@ == self@.after_configuration(value),
            next@.wf(),
    {
        let Opening { paths, stage } = self;
        let stage = match stage {
            OpeningStage::ReadActive { fd, stat_fd, device_descriptor } =>
                OpeningStage::ReadConfig { fd, stat_fd, device_descriptor, active_config: value },
            other => other,
        };
        Opening { paths, stage }
    }

    /// The configuration descriptor was parsed.
    pub fn parsed(self, interfaces: &Vec<InterfaceDescriptor>) -> (next: Opening)
        requires
            self@ is ParseConfig,
        ensures
            next@ == self@.after_parse(interfaces@),
            next@.wf(),
            self.stage matches OpeningStage::ParseConfig {
                fd,
                stat_fd,
                device_descriptor,
                active_config,
                config_descriptors,
            } ==> (next.stage matches OpeningStage::Ready { device } && device.fd == fd
                && device.stat_fd == stat_fd && device.device_descriptor == device_descriptor
                && device.active_config == active_config && device.config_descriptors
                == config_descriptors && device.paths == self.paths),
    {
        let Opening { paths, stage } = self;
        match stage {
            OpeningStage::ParseConfig {
                fd,
                stat_fd,
                device_descriptor,
                active_config,
                config_descriptors,
            } => {
                let device = IllumosDevice {
                    fd,
                    stat_fd,
                    device_descriptor,
                    config_descriptors,
                    active_config,
                    paths,
                    interfaces: collect_interfaces(interfaces),
                };
                proof {
                    interface_map_is_by_number(interfaces@);
                }
                Opening { paths: DevfsPath::new(), stage: OpeningStage::Ready { device } }
            },
            other => Opening { paths, stage: other },
        }
    }

    /// The device, or why it could not be opened.
    pub fn finish(self) -> (result: Result<IllumosDevice, Error>)
        requires
            self@.wf(),
            self@ is Ready || self@ is Failed,
        ensures
            self.stage matches OpeningStage::Ready { device } ==> result == Ok::<
                IllumosDevice,
                Error,
            >(device),
            self.stage matches OpeningStage::Failed { error } ==> result == Err::<
                IllumosDevice,
                Error,
            >(error),
            match self@ {
                OpeningView::Ready { device } => result matches Ok(d) && d@ == device
                    && d@.wf(),
                OpeningView::Failed { error } => result matches Err(e) && e@ == error,
                _ => true,
            },
    {
        match self.stage {
            OpeningStage::Ready { device } => Ok(device),
            OpeningStage::Failed { error } => Err(error),
            _ => Err(Error::new(ErrorKind::Other, "not ugen")),
        }
    }
}

/// The opening of a device as a whole. A device without the control node or its
/// status node fails as one that the driver does not serve, the status node
/// being looked for once the control node is open. A node that cannot be opened
/// fails with the error number of the system. Otherwise the device holds what
/// was read from it.
pub proof fn opening_as_a_whole(
    paths: Map<Seq<char>, Seq<char>>,
    errnos: Errnos,
    control: Result<i32, Errno>,
    stat: Result<i32, Errno>,
    device_descriptor: Seq<u8>,
    active_config: u8,
    config_descriptors: Seq<u8>,
    interfaces: Seq<InterfaceDescriptor>,
)
    ensures
        ({
            let first = OpeningView::started(paths);
            let second = first.after_open(control, errnos);
            let third = second.after_open(stat, errnos);
            let last = third.after_descriptor(device_descriptor).after_configuration(
                active_config,
            ).after_descriptor(config_descriptors).after_parse(interfaces);
            if !paths.contains_key("cntrl0"@) {
                first == (OpeningView::Failed { error: not_ugen() })
            } else if control is Err {
                second == (OpeningView::Failed {
                    error: ErrorView::control_open(control->Err_0, errnos),
                })
            } else if !paths.contains_key("cntrl0stat"@) {
                second == (OpeningView::Failed { error: not_ugen() })
            } else if stat is Err {
                third == (OpeningView::Failed {
                    error: ErrorView::control_open(stat->Err_0, errnos),
                })
            } else {
                last == (OpeningView::Ready {
                    device: DeviceView {
                        fd: control->Ok_0,
                        stat_fd: stat->Ok_0,
                        device_descriptor,
                        config_descriptors,
                        active_config,
                        paths,
                        interfaces: interface_map(interfaces),
                    },
                })
            }
        }),
{
}

/// What is done to open a device, in turn, as long as nothing fails: the path of
/// the control node is opened, then that of its status node; the device
/// descriptor is read, then the value of the active configuration, then the
/// configuration descriptor; and that is parsed. The device that comes of it holds
/// the two files in this order and what was read.
pub proof fn opening_goes_in_turn(
    paths: Map<Seq<char>, Seq<char>>,
    errnos: Errnos,
    control: i32,
    stat: i32,
    device_descriptor: Seq<u8>,
    active_config: u8,
    config_descriptors: Seq<u8>,
    interfaces: Seq<InterfaceDescriptor>,
)
    requires
        paths.contains_key("cntrl0"@),
        paths.contains_key("cntrl0stat"@),
    ensures
        ({
            let first = OpeningView::started(paths);
            let second = first.after_open(Ok(control), errnos);
            let third = second.after_open(Ok(stat), errnos);
            let fourth = third.after_descriptor(device_descriptor);
            let fifth = fourth.after_configuration(active_config);
            let sixth = fifth.after_descriptor(config_descriptors);
            let last = sixth.after_parse(interfaces);
            &&& first matches OpeningView::OpenControl { path, .. } && path == paths["cntrl0"@]
            &&& first.wants_open()
            &&& second matches OpeningView::OpenStat { path, .. } && path == paths["cntrl0stat"@]
            &&& second.wants_open()
            &&& third is ReadDevice
            &&& third.wants_descriptor()
            &&& fourth is ReadActive
            &&& fifth is ReadConfig
            &&& fifth.wants_descriptor()
            &&& sixth is ParseConfig
            &&& last matches OpeningView::Ready { device } && device.fd == control
                && device.stat_fd == stat && device.device_descriptor == device_descriptor
                && device.active_config == active_config && device.config_descriptors
                == config_descriptors && device.paths == paths && device.interfaces
                == interface_map(interfaces)
        }),
{
}

/// How the opening of a device fails: without one of its nodes with the message
/// that the driver does not serve it, and with the error number of the system
/// where a node cannot be opened. The status node is looked for once the control
/// node is open.
pub proof fn opening_fails_where_it_must(
    paths: Map<Seq<char>, Seq<char>>,
    errnos: Errnos,
    control: i32,
    errno: Errno,
)
    requires
        errnos.wf(),
    ensures
        ({
            let first = OpeningView::started(paths);
            let second = first.after_open(Ok(control), errnos);
            let refused = first.after_open(Err(errno), errnos);
            let refused_stat = second.after_open(Err(errno), errnos);
            &&& !paths.contains_key("cntrl0"@) ==> (first matches OpeningView::Failed { error }
                && error.kind is Other && error.code is None && error.message == "not ugen"@)
            &&& paths.contains_key("cntrl0"@) ==> {
                &&& refused matches OpeningView::Failed { error } && opening_error(error, errno)
                &&& !paths.contains_key("cntrl0stat"@) ==> (second matches OpeningView::Failed {
                    error,
                } && error.kind is Other && error.code is None && error.message == "not ugen"@)
                &&& paths.contains_key("cntrl0stat"@) ==> (
                refused_stat matches OpeningView::Failed { error } && opening_error(error, errno))
            }
        }),
{
    control_open_errors(errno, errnos);
}

/// Whether `error` reports that a control node could not be opened because of
/// `errno`.
pub open spec fn opening_error(error: ErrorView, errno: Errno) -> bool {
    &&& error.kind is Disconnected <==> errno.raw == 2
    &&& error.kind is PermissionDenied <==> errno.raw == 1
    &&& error.kind is Other <==> errno.raw != 1 && errno.raw != 2
    &&& error.code is None <==> errno.raw == 0
    &&& error.code matches Some(c) ==> c == errno.raw || c == errno.raw + 0x1_0000_0000
}

/// The mathematical value of an opening shows its stage, with all that the stage
/// holds.
pub proof fn opening_view_is_faithful(opening: Opening)
    ensures
        match opening.stage {
            OpeningStage::OpenControl { path } => opening@ == (OpeningView::OpenControl {
                paths: opening.paths@,
                path: path@,
            }),
            OpeningStage::OpenStat { fd, path } => opening@ == (OpeningView::OpenStat {
                paths: opening.paths@,
                fd,
                path: path@,
            }),
            OpeningStage::ReadDevice { fd, stat_fd } => opening@ == (OpeningView::ReadDevice {
                paths: opening.paths@,
                fd,
                stat_fd,
            }),
            OpeningStage::ReadActive { fd, stat_fd, device_descriptor } => opening@ == (
            OpeningView::ReadActive {
                paths: opening.paths@,
                fd,
                stat_fd,
                device_descriptor: device_descriptor@,
            }),
            OpeningStage::ReadConfig { fd, stat_fd, device_descriptor, active_config } => opening@
                == (OpeningView::ReadConfig {
                paths: opening.paths@,
                fd,
                stat_fd,
                device_descriptor: device_descriptor@,
                active_config,
            }),
            OpeningStage::ParseConfig {
                fd,
                stat_fd,
                device_descriptor,
                active_config,
                config_descriptors,
            } => opening@ == (OpeningView::ParseConfig {
                paths: opening.paths@,
                fd,
                stat_fd,
                device_descriptor: device_descriptor@,
                active_config,
                config_descriptors: config_descriptors@,
            }),
            OpeningStage::Ready { device } => opening@ == (OpeningView::Ready { device: device@ }),
            OpeningStage::Failed { error } => opening@ == (OpeningView::Failed { error: error@ }),
        },
{
}

} // verus!
