//! Which terminal devices of a system are serial ports.
use crate::error;
use crate::error::Error;
use crate::settings::SerialPortInfo;
use vstd::prelude::*;

verus! {

/// A device that another device hangs from.
#[derive(Debug, PartialEq, Eq)]
pub struct ParentDevice {
    /// The name of its driver.
    pub driver: Option<String>,
}

/// A terminal device, as a scan of the system finds it.
#[derive(Debug, PartialEq, Eq)]
pub struct TtyDevice {
    /// The device that it hangs from. A virtual terminal has none.
    pub parent: Option<ParentDevice>,
    /// The path of its device node, where it has one and the path is text.
    pub devnode: Option<String>,
    /// Whether it could be opened as a port. This counts only where
    /// [`needs_probe`](TtyDevice::needs_probe) says so.
    pub opens: bool,
}

impl TtyDevice {
    /// Whether the device has a parent and a device node.
    pub open spec fn is_candidate(self) -> bool {
        self.parent is Some && self.devnode is Some
    }

    /// Whether the driver of the parent sets up device nodes for ports that may not exist.
    pub open spec fn has_placeholder_driver(self) -> bool {
        self.parent matches Some(parent) && parent.driver matches Some(driver) && driver@
            == "serial8250"@
    }

    /// Whether the device is a serial port.
    pub open spec fn is_port(self) -> bool {
        &&& self.is_candidate()
        &&& self.has_placeholder_driver() ==> self.opens
    }

    /// Whether the device is a serial port only if it can be opened.
    pub fn needs_probe(&self) -> (needed: bool)
        ensures
            needed == (self.is_candidate() && self.has_placeholder_driver()),
            needed <==> (self.parent matches Some(parent) && parent.driver matches Some(driver)
                && driver@ == "serial8250"@ && self.devnode is Some),
    {
        match (&self.parent, &self.devnode) {
            (Some(parent), Some(_)) => match &parent.driver {
                Some(driver) => *driver == "serial8250".to_owned(),
                None => false,
            },
            _ => false,
        }
    }

    /// The port that the device is, if it is one.
    pub fn port(&self) -> (port: Option<SerialPortInfo>)
        ensures
            port is Some <==> self.is_port(),
            port is Some <==> (self.parent is Some && self.devnode is Some && (self.opens || !(
            self.parent->0.driver matches Some(driver) && driver@ == "serial8250"@))),
            port matches Some(info) ==> info.port_name@ == self.devnode->0@,
    {
        if self.needs_probe() && !self.opens {
            return None;
        }
        match (&self.parent, &self.devnode) {
            (Some(_), Some(path)) => Some(SerialPortInfo { port_name: path.clone() }),
            _ => None,
        }
    }
}

/// The paths of those devices that are serial ports, in order.
pub open spec fn port_names(devices: Seq<TtyDevice>) -> Seq<Seq<char>>
    decreases devices.len(),
{
    if devices.len() == 0 {
        seq![]
    } else if devices.last().is_port() {
        port_names(devices.drop_last()).push(devices.last().devnode->0@)
    } else {
        port_names(devices.drop_last())
    }
}

/// The names of ports.
pub open spec fn names(ports: Seq<SerialPortInfo>) -> Seq<Seq<char>> {
    ports.map_values(|port: SerialPortInfo| port.port_name@)
}

/// The names that are listed for a scan, or the error that it is.
pub open spec fn listed(scan: Option<Result<Vec<TtyDevice>, Option<i32>>>) -> Result<
    Seq<Seq<char>>,
    Error,
> {
    match scan {
        None => Ok(seq![]),
        Some(Err(errno)) => Err(error::error_of(errno)),
        Some(Ok(devices)) => Ok(port_names(devices@)),
    }
}

/// Lists the serial ports among the devices that a scan of the system found, in the order in which
/// it found them. Where devices cannot be scanned for at all there are no ports. A scan that failed
/// is an error.
pub fn available_ports(scan: Option<Result<Vec<TtyDevice>, Option<i32>>>) -> (list: Result<
    Vec<SerialPortInfo>,
    Error,
>)
    ensures
        match scan {
            None => list matches Ok(ports) && ports@ == Seq::<SerialPortInfo>::empty(),
            Some(Err(errno)) => list matches Err(e) && e == error::error_of(errno),
            Some(Ok(devices)) => list matches Ok(ports) && names(ports@) == port_names(devices@),
        },
        match list {
            Ok(ports) => listed(scan) == Ok::<Seq<Seq<char>>, Error>(names(ports@)),
            Err(e) => listed(scan) == Err::<Seq<Seq<char>>, Error>(e),
        },
        scan matches Some(Ok(devices)) ==> (list matches Ok(ports) && ports@.len() == port_names(
            devices@,
        ).len() && forall|i: int|
            0 <= i < ports@.len() ==> (#[trigger] ports@[i]).port_name@ == port_names(
                devices@,
            )[i]),
{
    let devices: Vec<TtyDevice> = match scan {
        None => {
            let none: Vec<SerialPortInfo> = Vec::new();
            assert(names(none@) =~= seq![]);
            return Ok(none);
        },
        Some(Err(errno)) => return Err(Error::from_io_error(errno)),
        Some(Ok(devices)) => devices,
    };
    let mut ports: Vec<SerialPortInfo> = Vec::new();
    let mut i: usize = 0;
    assert(names(ports@) =~= port_names(devices@.take(0)));
    while i < devices.len()
        invariant
            i <= devices@.len(),
            names(ports@) == port_names(devices@.take(i as int)),
        decreases devices@.len() - i,
    {
        let ghost before = ports@;
        assert(devices@.take(i + 1).drop_last() =~= devices@.take(i as int));
        if let Some(port) = devices[i].port() {
            ports.push(port);
            assert(names(ports@) =~= names(before).push(port.port_name@));
        }
        i = i + 1;
    }
    assert(devices@.take(devices@.len() as int) =~= devices@);
    assert forall|k: int| 0 <= k < ports@.len() implies (#[trigger] ports@[k]).port_name@
        == port_names(devices@)[k] by {
        assert(names(ports@)[k] == ports@[k].port_name@);
    }
    Ok(ports)
}

/// A path is listed exactly where it is the device node of a device that is a serial port, and there
/// are at most as many ports as devices.
pub proof fn law_listed_names_are_those_of_ports(devices: Seq<TtyDevice>, name: Seq<char>)
    ensures
        port_names(devices).contains(name) <==> exists|i: int|
            0 <= i < devices.len() && #[trigger] devices[i].is_port() && devices[i].devnode->0@
                == name,
        port_names(devices).len() <= devices.len(),
    decreases devices.len(),
{
    if devices.len() > 0 {
        let last = devices.len() - 1;
        let rest = devices.drop_last();
        law_listed_names_are_those_of_ports(rest, name);
        if port_names(devices).contains(name) {
            if port_names(rest).contains(name) {
                let i = choose|i: int|
                    0 <= i < rest.len() && #[trigger] rest[i].is_port() && rest[i].devnode->0@
                        == name;
                assert(devices[i].is_port());
            } else {
                assert(devices[last].is_port());
            }
        }
        if exists|i: int|
            0 <= i < devices.len() && #[trigger] devices[i].is_port() && devices[i].devnode->0@
                == name {
            let i = choose|i: int|
                0 <= i < devices.len() && #[trigger] devices[i].is_port() && devices[i].devnode->0@
                    == name;
            if i < last {
                assert(rest[i].is_port());
                let j = choose|j: int|
                    0 <= j < port_names(rest).len() && port_names(rest)[j] == name;
                assert(port_names(devices)[j] == name);
            } else {
                assert(port_names(devices)[port_names(rest).len() as int] == name);
            }
        }
    }
}

/// A device is a serial port exactly where it hangs from another device, has a device node, and, if
/// the driver of that other device is the one that sets up nodes for ports that may not exist, could
/// be opened.
pub proof fn law_ports_hang_from_a_device(device: TtyDevice)
    ensures
        device.is_port() ==> device.parent is Some && device.devnode is Some,
        device.parent is Some && device.devnode is Some && device.opens ==> device.is_port(),
        device.parent matches Some(parent) ==> (device.devnode is Some && !(
        parent.driver matches Some(driver) && driver@ == "serial8250"@) ==> device.is_port()),
        device.parent matches Some(parent) ==> (parent.driver matches Some(driver) ==> (driver@
            == "serial8250"@ && !device.opens ==> !device.is_port())),
{
}

/// Whether a device could be opened counts only where its parent has the driver that sets up nodes
/// for ports that may not exist. It never counts for a device without a parent or without a node.
pub proof fn law_opening_counts_only_for_placeholders(device: TtyDevice, opens: bool)
    requires
        !(device.parent matches Some(parent) && parent.driver matches Some(driver) && driver@
            == "serial8250"@),
    ensures
        device.is_port() == (TtyDevice { opens, ..device }).is_port(),
        device.is_port() <==> device.parent is Some && device.devnode is Some,
{
}

/// There are no ports where devices cannot be scanned for, and a scan that failed is the error with
/// its number; any other scan gives a list, and never an error. The names of a list are those of its
/// ports, one by one.
pub proof fn law_only_a_failed_scan_is_an_error(
    devices: Vec<TtyDevice>,
    errno: i32,
    ports: Seq<SerialPortInfo>,
)
    ensures
        listed(None) == Ok::<Seq<Seq<char>>, Error>(Seq::empty()),
        listed(Some(Err(Some(errno)))) == Err::<Seq<Seq<char>>, Error>(Error::Os(errno)),
        listed(Some(Err(None))) == Err::<Seq<Seq<char>>, Error>(Error::Io),
        listed(Some(Ok(devices))) == Ok::<Seq<Seq<char>>, Error>(port_names(devices@)),
        names(ports).len() == ports.len(),
        forall|i: int|
            0 <= i < ports.len() ==> #[trigger] names(ports)[i] == ports[i].port_name@,
{
}

/// The list of a single device is its node, or empty.
pub proof fn law_one_device_is_listed_by_its_node(device: TtyDevice)
    ensures
        device.is_port() ==> port_names(seq![device]) == seq![device.devnode->0@],
        !device.is_port() ==> port_names(seq![device]) == Seq::<Seq<char>>::empty(),
{
    let one = seq![device];
    assert(one.drop_last() =~= Seq::<TtyDevice>::empty());
    assert(port_names(one.drop_last()) =~= Seq::<Seq<char>>::empty());
    assert(one.last() == device);
    if device.is_port() {
        assert(port_names(one) =~= seq![device.devnode->0@]);
    }
}

/// The devices are listed in the order in which they were found, each of them once and on its own:
/// what is found in two parts is listed as the list of the one followed by the list of the other.
pub proof fn law_devices_are_listed_in_order(first: Seq<TtyDevice>, second: Seq<TtyDevice>)
    ensures
        port_names(first + second) == port_names(first) + port_names(second),
    decreases second.len(),
{
    if second.len() == 0 {
        assert(first + second =~= first);
        assert(port_names(first) + port_names(second) =~= port_names(first));
    } else {
        let rest = second.drop_last();
        law_devices_are_listed_in_order(first, rest);
        assert((first + second).drop_last() =~= first + rest);
        assert((first + second).last() == second.last());
        assert(port_names(first + second) =~= port_names(first) + port_names(second));
    }
}

} // verus!
