//! The shared device vocabulary: protocols, endpoints, statuses, per-resource
//! access permissions, resources and device records.

use vstd::prelude::*;

verus! {

/// Registrant-assigned identifier of a device, stable for its lifetime.
pub type DeviceId = String;

/// Bit granting read access on a resource.
pub const READ_BIT: u8 = 1;

/// Bit granting write access on a resource.
pub const WRITE_BIT: u8 = 2;

/// Bit granting invoke access on a resource.
pub const EXECUTE_BIT: u8 = 4;

/// Health of a registered device. `Unknown` is the only sensible value at
/// construction time, before the first health signal arrives.
#[derive(Debug, Clone, Copy, PartialEq, Eq, Structural)]
pub enum DeviceStatus {
    Online,
    Offline,
    Maintenance,
    Unknown,
}

/// The closed set of wire protocols the gateway speaks.
#[derive(Debug, Clone, Copy, PartialEq, Eq, Structural, Hash)]
pub enum DeviceProtocol {
    MQTT,
    HTTP,
    Modbus,
    CoAP,
}

/// Connection parameters for one device, one variant per protocol. The
/// protocol is never stored separately: it is derived from the endpoint by
/// [`DeviceEndpoint::protocol`], so the two cannot diverge.
#[derive(Debug, Clone)]
pub enum DeviceEndpoint {
    Http { url: String },
    Mqtt { broker: String },
    ModbusTCP { addr: String, port: u16 },
    ModbusRTU { port: String, baudrate: u32 },
    CoAP { url: String },
}

impl DeviceEndpoint {
    /// The protocol this endpoint is reachable over, as a pure derivation.
    pub open spec fn spec_protocol(&self) -> DeviceProtocol {
        match self {
            DeviceEndpoint::Http { .. } => DeviceProtocol::HTTP,
            DeviceEndpoint::Mqtt { .. } => DeviceProtocol::MQTT,
            DeviceEndpoint::ModbusTCP { .. } => DeviceProtocol::Modbus,
            DeviceEndpoint::ModbusRTU { .. } => DeviceProtocol::Modbus,
            DeviceEndpoint::CoAP { .. } => DeviceProtocol::CoAP,
        }
    }

    /// The protocol this endpoint is reachable over.
    pub fn protocol(&self) -> (p: DeviceProtocol)
        ensures
            p == self.spec_protocol(),
    {
        match self {
            DeviceEndpoint::Http { .. } => DeviceProtocol::HTTP,
            DeviceEndpoint::Mqtt { .. } => DeviceProtocol::MQTT,
            DeviceEndpoint::ModbusTCP { .. } => DeviceProtocol::Modbus,
            DeviceEndpoint::ModbusRTU { .. } => DeviceProtocol::Modbus,
            DeviceEndpoint::CoAP { .. } => DeviceProtocol::CoAP,
        }
    }
}

/// A combinable bit set of access rights attached to one resource. Rights
/// are attached per resource, not per device, because a device may expose
/// some read-only and some writable resources.
#[derive(Debug, Clone, Copy, PartialEq, Eq, Structural, Hash)]
pub struct DeviceResourceAccessPermission {
    /// Raw bit set; see [`READ_BIT`], [`WRITE_BIT`], [`EXECUTE_BIT`].
    pub bits: u8,
}

impl DeviceResourceAccessPermission {
    /// Whether every bit of `bits` is granted by this permission.
    pub open spec fn spec_contains_bits(self, bits: u8) -> bool {
        self.bits & bits == bits
    }

    /// The empty permission: no access granted.
    pub fn none() -> (r: Self)
        ensures
            r.bits == 0,
    {
        DeviceResourceAccessPermission { bits: 0 }
    }

    /// The permission granting read access.
    pub fn read() -> (r: Self)
        ensures
            r.bits == READ_BIT,
    {
        DeviceResourceAccessPermission { bits: READ_BIT }
    }

    /// The permission granting write access.
    pub fn write() -> (r: Self)
        ensures
            r.bits == WRITE_BIT,
    {
        DeviceResourceAccessPermission { bits: WRITE_BIT }
    }

    /// The permission granting invoke access.
    pub fn execute() -> (r: Self)
        ensures
            r.bits == EXECUTE_BIT,
    {
        DeviceResourceAccessPermission { bits: EXECUTE_BIT }
    }

    /// The combination of two permissions: every right either one grants.
    pub fn union(self, other: Self) -> (r: Self)
        ensures
            r.bits == (self.bits | other.bits),
    {
        DeviceResourceAccessPermission { bits: self.bits | other.bits }
    }

    /// Whether every right of `other` is granted by this permission.
    pub fn contains(self, other: Self) -> (r: bool)
        ensures
            r == self.spec_contains_bits(other.bits),
    {
        self.bits & other.bits == other.bits
    }
}

/// Capability bound on the protocol-specific attribute payload a resource
/// carries; each protocol defines its own attribute shape behind it.
pub trait DeviceResourceAttributes: Sized {

}

/// A named, independently-permissioned facet of a device, such as one sensor
/// reading or one actuator channel.
#[derive(Debug)]
pub struct DeviceResource<T: DeviceResourceAttributes> {
    /// Name of the resource, unique within its device.
    pub name: String,
    /// Protocol-specific addressing attributes.
    pub resource_attributes: T,
    /// Unit of measurement, for measurement resources.
    pub unit: Option<String>,
    /// Access rights granted on this resource. Absent means no access
    /// granted: the permission check fails closed.
    pub permission: Option<DeviceResourceAccessPermission>,
}

/// The record the registry keeps for one connected device.
#[derive(Debug)]
pub struct Device<T: DeviceResourceAttributes> {
    /// Registrant-assigned unique id; the only handle external callers hold.
    pub id: DeviceId,
    /// Human-readable name.
    pub name: String,
    /// Last known health of the device.
    pub status: DeviceStatus,
    /// Connection parameters; the device's protocol is derived from it.
    pub endpoint: DeviceEndpoint,
    /// Free-form string-to-string metadata.
    pub metadata: Option<Vec<(String, String)>>,
    /// Capacity hint for connection-oriented protocols.
    pub max_connections: Option<u32>,
    /// The addressable facets of the device.
    pub resources: Option<Vec<DeviceResource<T>>>,
}

impl<T: DeviceResourceAttributes> Device<T> {
    /// The resource list as a sequence; an absent list is empty.
    pub open spec fn resources_seq(&self) -> Seq<DeviceResource<T>> {
        match self.resources {
            Option::None => Seq::empty(),
            Option::Some(v) => v@,
        }
    }

    /// Whether the device has a resource of the given name.
    pub open spec fn spec_has_resource(&self, name: Seq<char>) -> bool {
        exists|i: int|
            0 <= i < self.resources_seq().len() && self.resources_seq()[i].name@ == name
    }

    /// The resource of the given name; meaningful when the device is well
    /// formed and the name is present.
    pub open spec fn spec_resource(&self, name: Seq<char>) -> DeviceResource<T> {
        self.resources_seq()[choose|i: int|
            0 <= i < self.resources_seq().len() && self.resources_seq()[i].name@ == name]
    }

    /// The device invariant: resource names are unique within the device.
    pub open spec fn wf(&self) -> bool {
        forall|i: int, j: int|
            0 <= i < j < self.resources_seq().len() ==> self.resources_seq()[i].name@
                != self.resources_seq()[j].name@
    }

    /// Any two positions holding the same resource name coincide in a well
    /// formed device.
    pub proof fn lemma_resource_unique(&self, i: int, j: int)
        requires
            self.wf(),
            0 <= i < self.resources_seq().len(),
            0 <= j < self.resources_seq().len(),
            self.resources_seq()[i].name@ == self.resources_seq()[j].name@,
        ensures
            i == j,
    {
        if i < j {
            assert(self.resources_seq()[i].name@ != self.resources_seq()[j].name@);
        } else if j < i {
            assert(self.resources_seq()[j].name@ != self.resources_seq()[i].name@);
        }
    }

    /// Whether the resource names of this device are unique, decided
    /// executably.
    pub fn is_well_formed(&self) -> (r: bool)
        ensures
            r == self.wf(),
    {
        match &self.resources {
            Option::None => true,
            Option::Some(v) => {
                let n = v.len();
                let mut i: usize = 0;
                while i < n
                    invariant
                        n == v.len(),
                        self.resources == Option::Some(*v),
                        i <= n,
                        forall|p: int, q: int|
                            0 <= p < q < n && p < i ==> v@[p].name@ != v@[q].name@,
                    decreases n - i,
                {
                    let mut j: usize = i + 1;
                    while j < n
                        invariant
                            n == v.len(),
                            self.resources == Option::Some(*v),
                            i < n,
                            i < j <= n,
                            forall|q: int| i < q < j ==> v@[i as int].name@ != v@[q].name@,
                        decreases n - j,
                    {
                        if v[i].name.eq(&v[j].name) {
                            proof {
                                assert(self.resources_seq() == v@);
                                if self.wf() {
                                    assert(self.resources_seq()[i as int].name@
                                        != self.resources_seq()[j as int].name@);
                                }
                            }
                            return false;
                        }
                        j += 1;
                    }
                    i += 1;
                }
                true
            },
        }
    }

    /// Look up the resource of the given name, the first match if any.
    pub fn find_resource(&self, name: &String) -> (r: Option<&DeviceResource<T>>)
        requires
            self.wf(),
        ensures
            match r {
                Option::None => !self.spec_has_resource(name@),
                Option::Some(res) => self.spec_has_resource(name@) && *res == self.spec_resource(
                    name@,
                ),
            },
    {
        match &self.resources {
            Option::None => Option::None,
            Option::Some(v) => {
                let n = v.len();
                let mut i: usize = 0;
                while i < n
                    invariant
                        n == v.len(),
                        self.resources == Option::Some(*v),
                        self.wf(),
                        i <= n,
                        forall|p: int| 0 <= p < i ==> v@[p].name@ != name@,
                    decreases n - i,
                {
                    if v[i].name.eq(name) {
                        proof {
                            assert(self.spec_has_resource(name@));
                            let w = choose|k: int|
                                0 <= k < self.resources_seq().len()
                                    && self.resources_seq()[k].name@ == name@;
                            self.lemma_resource_unique(w, i as int);
                        }
                        return Option::Some(&v[i]);
                    }
                    i += 1;
                }
                Option::None
            },
        }
    }
}

} // verus!
