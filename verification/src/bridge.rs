//! Cross-protocol command translation: the bridge capability contract and
//! the reference translation table.

use vstd::prelude::*;
use vstd::string::StrSliceExecFns;
use crate::command::{Command, CommandView};
use crate::device::DeviceProtocol;
use crate::error::RouterError;
use crate::text::append_str;

verus! {

/// Capability contract for translating a command built for one protocol
/// into an equivalent command for another.
///
/// Translation is a function of the command value and the protocol pair:
/// `translate_command` returns exactly `spec_translate` of its arguments, so
/// translating the same input twice yields identical output.
pub trait ProtocolBridge: Sized {
    /// Whether the pair (`from`, `to`) is supported.
    spec fn spec_supports(&self, from: DeviceProtocol, to: DeviceProtocol) -> bool;

    /// The translation itself, as a function over command views.
    spec fn spec_translate(
        &self,
        c: CommandView,
        from: DeviceProtocol,
        to: DeviceProtocol,
    ) -> Result<CommandView, RouterError>;

    /// Law: the identity pair is always supported, since no rewrite is
    /// needed.
    proof fn lemma_supports_identity(&self, p: DeviceProtocol)
        ensures
            self.spec_supports(p, p),
    ;

    /// Law: an unsupported pair always fails with `UnsupportedTranslation`,
    /// and a successful translation preserves the command's id, target
    /// device and command type.
    proof fn lemma_translate_shape(&self, c: CommandView, from: DeviceProtocol, to: DeviceProtocol)
        ensures
            !self.spec_supports(from, to) ==> self.spec_translate(c, from, to) == Result::<
                CommandView,
                RouterError,
            >::Err(RouterError::UnsupportedTranslation),
            self.spec_translate(c, from, to) matches Result::Ok(t) ==> t.id == c.id
                && t.target_device_id == c.target_device_id && t.command_type == c.command_type,
    ;

    /// Whether translation between the two protocols is supported. Pure and
    /// total over the closed protocol set.
    fn supports_translation(&self, from: &DeviceProtocol, to: &DeviceProtocol) -> (r: bool)
        ensures
            r == self.spec_supports(*from, *to),
    ;

    /// Rewrite `command` from the source protocol's conventions to the
    /// target's, or report why that cannot be done.
    fn translate_command(
        &self,
        command: Command,
        source_protocol: DeviceProtocol,
        target_protocol: DeviceProtocol,
    ) -> (r: Result<Command, RouterError>)
        ensures
            match self.spec_translate(command@, source_protocol, target_protocol) {
                Result::Ok(cv) => r matches Result::Ok(c) && c@ == cv,
                Result::Err(e) => r matches Result::Err(e2) && e2 == e,
            },
    ;
}

/// The reference translation table.
///
/// Its conventions: resource names agree across the textual protocols,
/// except that HTTP names resources by a slash-prefixed path. Translation
/// between two textual protocols (MQTT, HTTP, CoAP) adds or strips that
/// prefix; Modbus addresses registers, for which no textual equivalent is
/// defined, so only its identity pair is supported. Payload bytes pass
/// through unchanged.
#[derive(Debug, Clone, Copy, PartialEq, Eq, Structural)]
pub struct ReferenceBridge {
}

impl ProtocolBridge for ReferenceBridge {
    open spec fn spec_supports(&self, from: DeviceProtocol, to: DeviceProtocol) -> bool {
        from == to || (from != DeviceProtocol::Modbus && to != DeviceProtocol::Modbus)
    }

    open spec fn spec_translate(
        &self,
        c: CommandView,
        from: DeviceProtocol,
        to: DeviceProtocol,
    ) -> Result<CommandView, RouterError> {
        if !self.spec_supports(from, to) {
            Result::Err(RouterError::UnsupportedTranslation)
        } else if from == to {
            Result::Ok(c)
        } else if from == DeviceProtocol::HTTP {
            if c.resource.len() >= 1 && c.resource[0] == '/' {
                Result::Ok(
                    CommandView { resource: c.resource.subrange(1, c.resource.len() as int), ..c },
                )
            } else {
                Result::Err(RouterError::TranslationFailed)
            }
        } else if to == DeviceProtocol::HTTP {
            Result::Ok(CommandView { resource: "/"@ + c.resource, ..c })
        } else {
            Result::Ok(c)
        }
    }

    proof fn lemma_supports_identity(&self, p: DeviceProtocol) {
    }

    proof fn lemma_translate_shape(&self, c: CommandView, from: DeviceProtocol, to: DeviceProtocol) {
    }

    fn supports_translation(&self, from: &DeviceProtocol, to: &DeviceProtocol) -> (r: bool) {
        *from == *to || (*from != DeviceProtocol::Modbus && *to != DeviceProtocol::Modbus)
    }

    fn translate_command(
        &self,
        command: Command,
        source_protocol: DeviceProtocol,
        target_protocol: DeviceProtocol,
    ) -> (r: Result<Command, RouterError>) {
        if !self.supports_translation(&source_protocol, &target_protocol) {
            return Result::Err(RouterError::UnsupportedTranslation);
        }
        if source_protocol == target_protocol {
            return Result::Ok(command);
        }
        if source_protocol == DeviceProtocol::HTTP {
            let n = command.resource.as_str().unicode_len();
            if n >= 1 && command.resource.as_str().get_char(0) == '/' {
                let stripped = command.resource.as_str().substring_char(1, n).to_owned();
                let Command { id, target_device_id, command_type, resource: _, payload } = command;
                Result::Ok(Command { id, target_device_id, command_type, resource: stripped, payload })
            } else {
                Result::Err(RouterError::TranslationFailed)
            }
        } else if target_protocol == DeviceProtocol::HTTP {
            let mut prefixed = String::new();
            append_str(&mut prefixed, "/");
            append_str(&mut prefixed, command.resource.as_str());
            proof {
                assert(prefixed@ =~= "/"@ + command.resource@);
            }
            let Command { id, target_device_id, command_type, resource: _, payload } = command;
            Result::Ok(Command { id, target_device_id, command_type, resource: prefixed, payload })
        } else {
            Result::Ok(command)
        }
    }
}

impl ReferenceBridge {
    /// Round-trip law: for a pair supported in both directions, translating
    /// a command there and back returns the original command view, so the
    /// command type, target device and resource all survive the round trip.
    pub proof fn lemma_round_trip(&self, c: CommandView, a: DeviceProtocol, b: DeviceProtocol)
        requires
            self.spec_supports(a, b),
            self.spec_supports(b, a),
            self.spec_translate(c, a, b) matches Result::Ok(t),
        ensures
            self.spec_translate(self.spec_translate(c, a, b)->Ok_0, b, a) == Result::<
                CommandView,
                RouterError,
            >::Ok(c),
    {
        reveal_strlit("/");
        let t = self.spec_translate(c, a, b)->Ok_0;
        if a == b {
            assert(t == c);
        } else if a == DeviceProtocol::HTTP {
            assert(("/"@ + c.resource.subrange(1, c.resource.len() as int)) =~= c.resource);
            assert(self.spec_translate(t, b, a)->Ok_0 =~= c);
        } else if b == DeviceProtocol::HTTP {
            assert(t.resource == "/"@ + c.resource);
            assert(t.resource.len() >= 1 && t.resource[0] == '/');
            assert(t.resource.subrange(1, t.resource.len() as int) =~= c.resource);
            assert(self.spec_translate(t, b, a)->Ok_0 =~= c);
        } else {
            assert(t == c);
        }
    }
}

} // verus!
