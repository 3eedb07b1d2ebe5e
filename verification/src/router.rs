//! The router: the device registry, command dispatch, cross-protocol
//! device-to-device routing, and event fan-in.

use vstd::prelude::*;
use crate::bridge::ProtocolBridge;
use crate::command::{Command, CommandResult, CommandResultView, CommandView};
use crate::device::{
    Device, DeviceId, DeviceResourceAccessPermission, DeviceResourceAttributes, DeviceStatus,
    EXECUTE_BIT, READ_BIT, WRITE_BIT,
};
use crate::command::CommandType;
use crate::driver::Driver;
use crate::error::RouterError;

verus! {

/// An event surfaced by a device, such as a sensor reading.
#[derive(Debug)]
pub struct DeviceEvent {
    /// The device the event originated from.
    pub device_id: String,
    /// Producer-assigned, monotonically non-decreasing timestamp.
    pub timestamp: u64,
    /// Opaque event bytes; the core never interprets them.
    pub data: Vec<u8>,
}

/// The mathematical value of a [`DeviceEvent`].
#[verifier::ext_equal]
pub ghost struct DeviceEventView {
    pub device_id: Seq<char>,
    pub timestamp: u64,
    pub data: Seq<u8>,
}

impl View for DeviceEvent {
    type V = DeviceEventView;

    open spec fn view(&self) -> DeviceEventView {
        DeviceEventView { device_id: self.device_id@, timestamp: self.timestamp, data: self.data@ }
    }
}

/// A generic message on the internal bus connecting the router, drivers and
/// external collaborators.
#[derive(Debug)]
pub enum Message {
    /// A command on its way to a device.
    Command(Command),
    /// An event surfaced by a device.
    Event(DeviceEvent),
    /// The result of an executed command.
    Response(CommandResult),
}

/// The mathematical value of a [`Message`].
#[verifier::ext_equal]
pub ghost enum MessageView {
    Command(CommandView),
    Event(DeviceEventView),
    Response(CommandResultView),
}

impl View for Message {
    type V = MessageView;

    open spec fn view(&self) -> MessageView {
        match self {
            Message::Command(c) => MessageView::Command(c@),
            Message::Event(e) => MessageView::Event(e@),
            Message::Response(r) => MessageView::Response(r@),
        }
    }
}

/// The access bit a command type needs: read for `Get`, write for `Write`,
/// invoke for `Action`.
pub open spec fn required_bits(ct: CommandType) -> u8 {
    match ct {
        CommandType::Get => READ_BIT,
        CommandType::Write => WRITE_BIT,
        CommandType::Action => EXECUTE_BIT,
    }
}

/// Whether a resource's permission grants what the command type needs. An
/// absent permission grants nothing: the check fails closed.
pub open spec fn allows(p: Option<DeviceResourceAccessPermission>, ct: CommandType) -> bool {
    match p {
        Option::None => false,
        Option::Some(q) => q.spec_contains_bits(required_bits(ct)),
    }
}

/// Whether some device in the registry carries the given id.
pub open spec fn has_device<T: DeviceResourceAttributes>(
    s: Seq<Device<T>>,
    id: Seq<char>,
) -> bool {
    exists|i: int| 0 <= i < s.len() && s[i].id@ == id
}

/// The position of the device with the given id; meaningful when the
/// registry is well formed and the id is present.
pub open spec fn device_index<T: DeviceResourceAttributes>(s: Seq<Device<T>>, id: Seq<char>) -> int {
    choose|i: int| 0 <= i < s.len() && s[i].id@ == id
}

/// The device with the given id.
pub open spec fn device_with<T: DeviceResourceAttributes>(
    s: Seq<Device<T>>,
    id: Seq<char>,
) -> Device<T> {
    s[device_index(s, id)]
}

/// The registry invariant: device ids are unique and every record is well
/// formed.
pub open spec fn registry_wf<T: DeviceResourceAttributes>(s: Seq<Device<T>>) -> bool {
    &&& forall|i: int, j: int| 0 <= i < j < s.len() ==> s[i].id@ != s[j].id@
    &&& forall|i: int| 0 <= i < s.len() ==> s[i].wf()
}

/// Any two positions holding the same device id coincide in a well formed
/// registry.
pub proof fn lemma_device_unique<T: DeviceResourceAttributes>(s: Seq<Device<T>>, i: int, j: int)
    requires
        registry_wf(s),
        0 <= i < s.len(),
        0 <= j < s.len(),
        s[i].id@ == s[j].id@,
    ensures
        i == j,
{
    if i < j {
        assert(s[i].id@ != s[j].id@);
    } else if j < i {
        assert(s[j].id@ != s[i].id@);
    }
}

/// The synchronous validation a command goes through before any driver is
/// invoked: device lookup, resource lookup, then the fail-closed permission
/// check, reported in that order.
pub open spec fn command_outcome<T: DeviceResourceAttributes>(
    devices: Seq<Device<T>>,
    c: CommandView,
) -> Result<(), RouterError> {
    if !has_device(devices, c.target_device_id) {
        Result::Err(RouterError::UnknownDevice)
    } else {
        let d = device_with(devices, c.target_device_id);
        if !d.spec_has_resource(c.resource) {
            Result::Err(RouterError::UnknownResource)
        } else if !allows(d.spec_resource(c.resource).permission, c.command_type) {
            Result::Err(RouterError::PermissionDenied)
        } else {
            Result::Ok(())
        }
    }
}

/// What a device-to-device routing decides before dispatch: source and
/// target lookup, translation when the protocols differ, then the same
/// validation as a direct command. `Ok` carries the command actually
/// dispatched.
pub open spec fn d2d_outcome<T: DeviceResourceAttributes, Br: ProtocolBridge>(
    devices: Seq<Device<T>>,
    bridge: Br,
    source_device_id: Seq<char>,
    c: CommandView,
) -> Result<CommandView, RouterError> {
    if !has_device(devices, source_device_id) {
        Result::Err(RouterError::UnknownDevice)
    } else if !has_device(devices, c.target_device_id) {
        Result::Err(RouterError::UnknownDevice)
    } else {
        let sp = device_with(devices, source_device_id).endpoint.spec_protocol();
        let tp = device_with(devices, c.target_device_id).endpoint.spec_protocol();
        if sp == tp {
            match command_outcome(devices, c) {
                Result::Err(e) => Result::Err(e),
                Result::Ok(u) => Result::Ok(c),
            }
        } else if !bridge.spec_supports(sp, tp) {
            Result::Err(RouterError::UnsupportedTranslation)
        } else {
            match bridge.spec_translate(c, sp, tp) {
                Result::Err(e) => Result::Err(e),
                Result::Ok(t) => match command_outcome(devices, t) {
                    Result::Err(e) => Result::Err(e),
                    Result::Ok(u) => Result::Ok(t),
                },
            }
        }
    }
}

/// A device record with its status replaced.
pub open spec fn with_status<T: DeviceResourceAttributes>(
    d: Device<T>,
    s: DeviceStatus,
) -> Device<T> {
    Device { status: s, ..d }
}

/// The status a device moves to when one of its events arrives: the first
/// event after `Offline` brings it `Online`; any other status is kept.
pub open spec fn event_status(s: DeviceStatus) -> DeviceStatus {
    if s == DeviceStatus::Offline {
        DeviceStatus::Online
    } else {
        s
    }
}

/// A resource permission that is absent or lacks the needed bit denies
/// every command type: a found device and resource never reach dispatch
/// without the matching grant, and an absent permission fails closed for
/// all three command types.
pub proof fn lemma_permission_fails_closed<T: DeviceResourceAttributes>(
    devices: Seq<Device<T>>,
    c: CommandView,
)
    requires
        has_device(devices, c.target_device_id),
        device_with(devices, c.target_device_id).spec_has_resource(c.resource),
        device_with(devices, c.target_device_id).spec_resource(c.resource).permission
            is None,
    ensures
        command_outcome(devices, c) == Result::<(), RouterError>::Err(
            RouterError::PermissionDenied,
        ),
{
}

/// A command naming a resource absent from its (present) target device is
/// rejected with `UnknownResource`, whatever its command type and payload.
pub proof fn lemma_unknown_resource<T: DeviceResourceAttributes>(
    devices: Seq<Device<T>>,
    c: CommandView,
)
    requires
        has_device(devices, c.target_device_id),
        !device_with(devices, c.target_device_id).spec_has_resource(c.resource),
    ensures
        command_outcome(devices, c) == Result::<(), RouterError>::Err(RouterError::UnknownResource),
{
}

/// Device-to-device routing between two devices on the same protocol
/// decides exactly what a direct command to the target decides: the bridge
/// is never consulted and the command is dispatched unchanged.
pub proof fn lemma_same_protocol_d2d<T: DeviceResourceAttributes, Br: ProtocolBridge>(
    devices: Seq<Device<T>>,
    bridge: Br,
    source_device_id: Seq<char>,
    c: CommandView,
)
    requires
        has_device(devices, source_device_id),
        has_device(devices, c.target_device_id),
        device_with(devices, source_device_id).endpoint.spec_protocol() == device_with(
            devices,
            c.target_device_id,
        ).endpoint.spec_protocol(),
    ensures
        command_outcome(devices, c) is Ok ==> d2d_outcome(devices, bridge, source_device_id, c)
            == Result::<CommandView, RouterError>::Ok(c),
        command_outcome(devices, c) matches Result::Err(e) ==> d2d_outcome(
            devices,
            bridge,
            source_device_id,
            c,
        ) == Result::<CommandView, RouterError>::Err(e),
{
}

/// The orchestration contract: registry ownership, command routing, event
/// fan-in, and device-to-device routing.
pub trait Router<T: DeviceResourceAttributes>: Sized {
    /// The registry contents.
    spec fn registry(&self) -> Seq<Device<T>>;

    /// The router invariant.
    spec fn wf(&self) -> bool;

    /// Register a new device. Fails with `RegistrationConflict` when the id
    /// is already taken, leaving every registered device unchanged; on
    /// success the device becomes visible to routing immediately, with
    /// whatever status the caller set.
    fn register_device(&mut self, device: Device<T>) -> (r: Result<(), RouterError>)
        requires
            old(self).wf(),
            device.wf(),
        ensures
            final(self).wf(),
            has_device(old(self).registry(), device.id@) ==> r == Result::<(), RouterError>::Err(
                RouterError::RegistrationConflict,
            ) && final(self).registry() == old(self).registry(),
            !has_device(old(self).registry(), device.id@) ==> r == Result::<(), RouterError>::Ok(())
                && final(self).registry() == old(self).registry().push(device),
    ;

    /// Route a command to its target device: look the device up, look the
    /// resource up, check the permission, and only then dispatch.
    fn route_command(&mut self, command: Command) -> (r: Result<CommandResult, RouterError>)
        requires
            old(self).wf(),
        ensures
            final(self).wf(),
            final(self).registry() == old(self).registry(),
            match command_outcome(old(self).registry(), command@) {
                Result::Err(e) => r matches Result::Err(e2) && e2 == e,
                Result::Ok(u) => r matches Result::Ok(res) && res@.command_id == command@.id,
            },
    ;

    /// Handle an incoming device event: reject it when the device is not
    /// registered, otherwise take it in (an unknown device is an expected
    /// race with deregistration, not a fault of the caller).
    fn handle_event(&mut self, event: DeviceEvent) -> (r: Result<(), RouterError>)
        requires
            old(self).wf(),
        ensures
            final(self).wf(),
            !has_device(old(self).registry(), event.device_id@) ==> r == Result::<(),
                RouterError,
            >::Err(RouterError::UnknownDevice) && final(self).registry() == old(self).registry(),
            has_device(old(self).registry(), event.device_id@) ==> r == Result::<(),
                RouterError,
            >::Ok(()) && final(self).registry() == old(self).registry().update(
                device_index(old(self).registry(), event.device_id@),
                with_status(
                    device_with(old(self).registry(), event.device_id@),
                    event_status(device_with(old(self).registry(), event.device_id@).status),
                ),
            ),
    ;

    /// Route a command from one device to another, translating it when the
    /// two protocols differ; when the bridge reports the pair unsupported
    /// the whole operation fails and no driver is invoked.
    fn route_device_to_device(&mut self, source_device_id: DeviceId, command: Command) -> (r:
        Result<CommandResult, RouterError>)
        requires
            old(self).wf(),
        ensures
            final(self).wf(),
            final(self).registry() == old(self).registry(),
            !has_device(old(self).registry(), source_device_id@) ==> r == Result::<
                CommandResult,
                RouterError,
            >::Err(RouterError::UnknownDevice),
    ;
}

/// The reference router: sole owner of the registry, dispatching through
/// one driver and one bridge, and forwarding events and results to external
/// collaborators through its outbox.
#[derive(Debug)]
pub struct GatewayRouter<T: DeviceResourceAttributes, Dr: Driver, Br: ProtocolBridge> {
    /// The registered devices. The router is their sole owner: external
    /// callers hold only device ids and mutate records only through the
    /// router's methods, which preserve the registry invariant [`Router::wf`].
    pub devices: Vec<Device<T>>,
    /// The driver commands are dispatched to.
    pub driver: Dr,
    /// The bridge consulted when a device-to-device command crosses
    /// protocols.
    pub bridge: Br,
    /// Messages owed to external collaborators (storage, telemetry): every
    /// dispatched result and every accepted event, in order. Forwarding is
    /// fire-and-forget: a collaborator failure never fails routing.
    pub outbox: Vec<Message>,
}

impl<T: DeviceResourceAttributes, Dr: Driver, Br: ProtocolBridge> GatewayRouter<T, Dr, Br> {
    /// The outbox contents as mathematical values.
    pub open spec fn outbox_view(&self) -> Seq<MessageView> {
        self.outbox@.map_values(|m: Message| m@)
    }

    /// A fresh router with an empty registry and an empty outbox.
    pub fn new(driver: Dr, bridge: Br) -> (r: GatewayRouter<T, Dr, Br>)
        ensures
            r.wf(),
            r.registry() == Seq::<Device<T>>::empty(),
            r.outbox_view() == Seq::<MessageView>::empty(),
            r.driver == driver,
            r.bridge == bridge,
    {
        let r = GatewayRouter { devices: Vec::new(), driver, bridge, outbox: Vec::new() };
        proof {
            assert(r.outbox_view() =~= Seq::<MessageView>::empty());
        }
        r
    }

    /// The number of registered devices.
    pub fn device_count(&self) -> (n: usize)
        ensures
            n == self.registry().len(),
    {
        self.devices.len()
    }

    /// The position of the device with the given id, if it is registered.
    fn find_device_index(&self, id: &String) -> (r: Option<usize>)
        requires
            self.wf(),
        ensures
            match r {
                Option::None => !has_device(self.registry(), id@),
                Option::Some(i) => has_device(self.registry(), id@) && i < self.registry().len()
                    && i as int == device_index(self.registry(), id@) && self.registry()[
                    i as int
                ].id@ == id@,
            },
    {
        let n = self.devices.len();
        let mut i: usize = 0;
        while i < n
            invariant
                self.wf(),
                n == self.devices.len(),
                i <= n,
                forall|p: int| 0 <= p < i ==> self.devices@[p].id@ != id@,
            decreases n - i,
        {
            if self.devices[i].id.eq(id) {
                proof {
                    assert(has_device(self.registry(), id@));
                    let w = device_index(self.registry(), id@);
                    lemma_device_unique(self.registry(), w, i as int);
                }
                return Option::Some(i);
            }
            i += 1;
        }
        Option::None
    }

    /// The status of the device with the given id, if it is registered.
    pub fn device_status(&self, id: &String) -> (r: Option<DeviceStatus>)
        requires
            self.wf(),
        ensures
            match r {
                Option::None => !has_device(self.registry(), id@),
                Option::Some(s) => has_device(self.registry(), id@) && s == device_with(
                    self.registry(),
                    id@,
                ).status,
            },
    {
        match self.find_device_index(id) {
            Option::None => Option::None,
            Option::Some(i) => Option::Some(self.devices[i].status),
        }
    }

    /// Record a status transition for a registered device, the router being
    /// the single writer of device status: drivers and bridges never touch
    /// registry state. Called in response to driver start and stop outcomes
    /// or to whatever heartbeat policy an outer layer adds.
    pub fn set_device_status(&mut self, id: &String, status: DeviceStatus) -> (r: Result<
        (),
        RouterError,
    >)
        requires
            old(self).wf(),
        ensures
            final(self).wf(),
            final(self).driver == old(self).driver,
            final(self).bridge == old(self).bridge,
            final(self).outbox_view() == old(self).outbox_view(),
            !has_device(old(self).registry(), id@) ==> r == Result::<(), RouterError>::Err(
                RouterError::UnknownDevice,
            ) && final(self).registry() == old(self).registry(),
            has_device(old(self).registry(), id@) ==> r == Result::<(), RouterError>::Ok(())
                && final(self).registry() == old(self).registry().update(
                device_index(old(self).registry(), id@),
                with_status(device_with(old(self).registry(), id@), status),
            ),
    {
        let idx = match self.find_device_index(id) {
            Option::None => {
                return Result::Err(RouterError::UnknownDevice);
            },
            Option::Some(i) => i,
        };
        let ghost pre = self.devices@;
        self.devices[idx].status = status;
        proof {
            assert(self.devices@ =~= pre.update(idx as int, with_status(pre[idx as int], status)));
            assert forall|p: int, q: int|
                0 <= p < q < self.devices@.len() implies self.devices@[p].id@ != self.devices@[
                q
            ].id@ by {
                assert(pre[p].id@ != pre[q].id@);
                assert(self.devices@[p].id@ == pre[p].id@);
                assert(self.devices@[q].id@ == pre[q].id@);
            }
            assert forall|p: int| 0 <= p < self.devices@.len() implies self.devices@[p].wf() by {
                assert(pre[p].wf());
                assert(self.devices@[p].resources == pre[p].resources);
            }
        }
        Result::Ok(())
    }

    /// Remove the device with the given id from the registry, completing
    /// the record lifecycle. Deliberate policy: commands already handed to
    /// the driver drain normally, while any later command naming this id is
    /// rejected with `UnknownDevice` at once.
    pub fn deregister_device(&mut self, id: &String) -> (r: Result<(), RouterError>)
        requires
            old(self).wf(),
        ensures
            final(self).wf(),
            final(self).driver == old(self).driver,
            final(self).bridge == old(self).bridge,
            final(self).outbox_view() == old(self).outbox_view(),
            !has_device(old(self).registry(), id@) ==> r == Result::<(), RouterError>::Err(
                RouterError::UnknownDevice,
            ) && final(self).registry() == old(self).registry(),
            has_device(old(self).registry(), id@) ==> r == Result::<(), RouterError>::Ok(())
                && final(self).registry() == old(self).registry().remove(
                device_index(old(self).registry(), id@),
            ) && !has_device(final(self).registry(), id@),
    {
        match self.find_device_index(id) {
            Option::None => Result::Err(RouterError::UnknownDevice),
            Option::Some(i) => {
                let ghost pre = self.devices@;
                let ghost idx = i as int;
                self.devices.remove(i);
                proof {
                    pre.remove_ensures(idx);
                    assert forall|p: int, q: int|
                        0 <= p < q < self.devices@.len() implies self.devices@[p].id@
                        != self.devices@[q].id@ by {
                        let p0: int = if p < idx {
                            p
                        } else {
                            p + 1
                        };
                        let q0: int = if q < idx {
                            q
                        } else {
                            q + 1
                        };
                        assert(self.devices@[p] == pre[p0]);
                        assert(self.devices@[q] == pre[q0]);
                        assert(pre[p0].id@ != pre[q0].id@);
                    }
                    assert forall|p: int| 0 <= p < self.devices@.len() implies self.devices@[
                        p
                    ].wf() by {
                        let p0: int = if p < idx {
                            p
                        } else {
                            p + 1
                        };
                        assert(self.devices@[p] == pre[p0]);
                        assert(pre[p0].wf());
                    }
                    assert forall|p: int| 0 <= p < self.devices@.len() implies self.devices@[p].id@
                        != id@ by {
                        let p0: int = if p < idx {
                            p
                        } else {
                            p + 1
                        };
                        assert(self.devices@[p] == pre[p0]);
                        if p0 != idx && pre[p0].id@ == pre[idx].id@ {
                            lemma_device_unique(pre, p0, idx);
                        }
                    }
                    assert(!has_device(self.devices@, id@));
                }
                Result::Ok(())
            },
        }
    }

    /// Validate a command against the registry and, when it passes, hand it
    /// to the driver and record the result in the outbox.
    fn validate_and_dispatch(&mut self, command: Command) -> (r: Result<CommandResult, RouterError>)
        requires
            old(self).wf(),
        ensures
            final(self).wf(),
            final(self).registry() == old(self).registry(),
            final(self).bridge == old(self).bridge,
            match command_outcome(old(self).registry(), command@) {
                Result::Err(e) => r matches Result::Err(e2) && e2 == e && final(self).driver == old(
                    self,
                ).driver && final(self).outbox_view() == old(self).outbox_view(),
                Result::Ok(u) => ({
                    &&& r matches Result::Ok(res)
                    &&& res@.command_id == command@.id
                    &&& Dr::post(old(self).driver, final(self).driver, command@, res@)
                    &&& final(self).outbox_view() == old(self).outbox_view().push(
                        MessageView::Response(res@),
                    )
                }),
            },
    {
        let idx = match self.find_device_index(&command.target_device_id) {
            Option::None => {
                return Result::Err(RouterError::UnknownDevice);
            },
            Option::Some(i) => i,
        };
        let device = &self.devices[idx];
        proof {
            assert(device.wf());
            assert(*device == device_with(self.registry(), command@.target_device_id));
        }
        let resource = match device.find_resource(&command.resource) {
            Option::None => {
                return Result::Err(RouterError::UnknownResource);
            },
            Option::Some(res) => res,
        };
        let granted = match &resource.permission {
            Option::None => false,
            Option::Some(p) => {
                let need: u8 = match command.command_type {
                    CommandType::Get => READ_BIT,
                    CommandType::Write => WRITE_BIT,
                    CommandType::Action => EXECUTE_BIT,
                };
                p.bits & need == need
            },
        };
        if !granted {
            return Result::Err(RouterError::PermissionDenied);
        }
        let result = self.driver.execute(&command);
        let forwarded = result.duplicate();
        let ghost pre_outbox = self.outbox_view();
        self.outbox.push(Message::Response(forwarded));
        proof {
            assert(self.outbox_view() =~= pre_outbox.push(MessageView::Response(result@)));
        }
        Result::Ok(result)
    }
}

impl<T: DeviceResourceAttributes, Dr: Driver, Br: ProtocolBridge> Router<T> for GatewayRouter<
    T,
    Dr,
    Br,
> {
    open spec fn registry(&self) -> Seq<Device<T>> {
        self.devices@
    }

    open spec fn wf(&self) -> bool {
        registry_wf(self.devices@)
    }

    fn register_device(&mut self, device: Device<T>) -> (r: Result<(), RouterError>)
        ensures
            final(self).driver == old(self).driver,
            final(self).bridge == old(self).bridge,
            final(self).outbox_view() == old(self).outbox_view(),
    {
        match self.find_device_index(&device.id) {
            Option::Some(i) => Result::Err(RouterError::RegistrationConflict),
            Option::None => {
                let ghost pre = self.devices@;
                let ghost id = device.id@;
                self.devices.push(device);
                proof {
                    assert forall|i: int, j: int|
                        0 <= i < j < self.devices@.len() implies self.devices@[i].id@
                        != self.devices@[j].id@ by {
                        if j < pre.len() as int {
                            assert(pre[i].id@ != pre[j].id@);
                        } else {
                            assert(self.devices@[j].id@ == id);
                            if self.devices@[i].id@ == id {
                                assert(has_device(pre, id));
                            }
                        }
                    }
                    assert forall|i: int| 0 <= i < self.devices@.len() implies self.devices@[
                        i
                    ].wf() by {
                        if i < pre.len() as int {
                            assert(pre[i].wf());
                        }
                    }
                }
                Result::Ok(())
            },
        }
    }

    fn route_command(&mut self, command: Command) -> (r: Result<CommandResult, RouterError>)
        ensures
            final(self).bridge == old(self).bridge,
            match command_outcome(old(self).registry(), command@) {
                Result::Err(e) => r matches Result::Err(e2) && e2 == e && final(self).driver == old(
                    self,
                ).driver && final(self).outbox_view() == old(self).outbox_view(),
                Result::Ok(u) => ({
                    &&& r matches Result::Ok(res)
                    &&& Dr::post(old(self).driver, final(self).driver, command@, res@)
                    &&& final(self).outbox_view() == old(self).outbox_view().push(
                        MessageView::Response(res@),
                    )
                }),
            },
    {
        self.validate_and_dispatch(command)
    }

    fn handle_event(&mut self, event: DeviceEvent) -> (r: Result<(), RouterError>)
        ensures
            final(self).driver == old(self).driver,
            final(self).bridge == old(self).bridge,
            !has_device(old(self).registry(), event.device_id@) ==> final(self).outbox_view()
                == old(self).outbox_view(),
            has_device(old(self).registry(), event.device_id@) ==> final(self).outbox_view() == old(
                self,
            ).outbox_view().push(MessageView::Event(event@)),
    {
        let idx = match self.find_device_index(&event.device_id) {
            Option::None => {
                return Result::Err(RouterError::UnknownDevice);
            },
            Option::Some(i) => i,
        };
        let ghost pre = self.devices@;
        let is_offline = self.devices[idx].status == DeviceStatus::Offline;
        if is_offline {
            self.devices[idx].status = DeviceStatus::Online;
        }
        proof {
            assert(self.devices@ =~= pre.update(
                idx as int,
                with_status(pre[idx as int], event_status(pre[idx as int].status)),
            ));
            assert forall|i: int, j: int|
                0 <= i < j < self.devices@.len() implies self.devices@[i].id@ != self.devices@[
                j
            ].id@ by {
                assert(pre[i].id@ != pre[j].id@);
                assert(self.devices@[i].id@ == pre[i].id@);
                assert(self.devices@[j].id@ == pre[j].id@);
            }
            assert forall|i: int| 0 <= i < self.devices@.len() implies self.devices@[i].wf() by {
                assert(pre[i].wf());
                assert(self.devices@[i].resources == pre[i].resources);
            }
        }
        let ghost pre_outbox = self.outbox_view();
        self.outbox.push(Message::Event(event));
        proof {
            assert(self.outbox_view() =~= pre_outbox.push(MessageView::Event(event@)));
        }
        Result::Ok(())
    }

    fn route_device_to_device(&mut self, source_device_id: DeviceId, command: Command) -> (r:
        Result<CommandResult, RouterError>)
        ensures
            final(self).bridge == old(self).bridge,
            match d2d_outcome(
                old(self).registry(),
                old(self).bridge,
                source_device_id@,
                command@,
            ) {
                Result::Err(e) => r matches Result::Err(e2) && e2 == e && final(self).driver == old(
                    self,
                ).driver && final(self).outbox_view() == old(self).outbox_view(),
                Result::Ok(t) => ({
                    &&& r matches Result::Ok(res)
                    &&& res@.command_id == t.id
                    &&& Dr::post(old(self).driver, final(self).driver, t, res@)
                    &&& final(self).outbox_view() == old(self).outbox_view().push(
                        MessageView::Response(res@),
                    )
                }),
            },
    {
        if self.find_device_index(&source_device_id).is_none() {
            return Result::Err(RouterError::UnknownDevice);
        }
        if self.find_device_index(&command.target_device_id).is_none() {
            return Result::Err(RouterError::UnknownDevice);
        }
        let sidx = self.find_device_index(&source_device_id).unwrap();
        let tidx = self.find_device_index(&command.target_device_id).unwrap();
        let sp = self.devices[sidx].endpoint.protocol();
        let tp = self.devices[tidx].endpoint.protocol();
        if sp == tp {
            self.validate_and_dispatch(command)
        } else if !self.bridge.supports_translation(&sp, &tp) {
            Result::Err(RouterError::UnsupportedTranslation)
        } else {
            proof {
                self.bridge.lemma_translate_shape(command@, sp, tp);
            }
            match self.bridge.translate_command(command, sp, tp) {
                Result::Err(e) => Result::Err(e),
                Result::Ok(translated) => self.validate_and_dispatch(translated),
            }
        }
    }
}

} // verus!
