//! Decoding of the info payloads of the protocol's responses.
use vstd::prelude::*;
use crate::model::{ModuleIdentity, ModuleState, ModuleStateView, ManagementInfo, ManagementStatus, SystemParameters, spread, no_cells_text, no_capacity_text};
use crate::protocol::{ProtocolError, ProtocolFault, ResponseFrame, fault_view};
use crate::text::{decimal, text_with_number, push_decimal, from_utf8_lossy, lossy_utf8, strip, strip_text, CharClass};

verus! {

/// A big-endian unsigned 16 bit value at position `i`.
pub open spec fn be_u16(s: Seq<u8>, i: int) -> int {
    s[i] * 256 + s[i + 1]
}

/// A big-endian two's complement 16 bit value at position `i`.
pub open spec fn be_i16(s: Seq<u8>, i: int) -> int {
    if be_u16(s, i) >= 32768 {
        be_u16(s, i) - 65536
    } else {
        be_u16(s, i)
    }
}

/// A big-endian unsigned 24 bit value at position `i`.
pub open spec fn be_u24(s: Seq<u8>, i: int) -> int {
    s[i] * 65536 + s[i + 1] * 256 + s[i + 2]
}

pub open spec fn payload_end(field: &str) -> ProtocolFault {
    ProtocolFault::UnexpectedPayloadEnd { field: field@ }
}

pub open spec fn trailing_text(n: nat) -> Seq<char> {
    "payload had "@ + decimal(n) + " unexpected trailing bytes"@
}

/// Reads fields one after another from a payload.
pub struct ByteCursor<'a> {
    bytes: &'a [u8],
    offset: usize,
}

impl<'a> ByteCursor<'a> {
    pub closed spec fn data(&self) -> Seq<u8> {
        self.bytes@
    }

    /// How many bytes have been read.
    pub closed spec fn position(&self) -> nat {
        self.offset as nat
    }

    /// The position never passes the end of the data.
    pub open spec fn wf(&self) -> bool {
        self.position() <= self.data().len()
    }

    #[verifier::type_invariant]
    spec fn within_data(&self) -> bool {
        self.offset <= self.bytes@.len()
    }

    pub fn new(bytes: &'a [u8]) -> (res: Self)
        ensures
            res.wf(),
            res.data() == bytes@,
            res.position() == 0,
    {
        ByteCursor { bytes, offset: 0 }
    }

    /// The next `length` bytes; when fewer are left, the error names `field`
    /// and nothing is consumed.
    pub fn read_exact(&mut self, field: &'static str, length: usize) -> (res: Result<&'a [u8], ProtocolError>)
        ensures
            final(self).wf(),
            final(self).data() == old(self).data(),
            old(self).position() + length > old(self).data().len() ==> fault_view(res) == Err::<&'a [u8], ProtocolFault>(
                payload_end(field),
            ) && final(self).position() == old(self).position(),
            old(self).position() + length <= old(self).data().len() ==> res is Ok && res->Ok_0@ == old(
                self,
            ).data().subrange(old(self).position() as int, old(self).position() + length)
                && final(self).position() == old(self).position() + length,
    {
        proof {
            use_type_invariant(&*self);
        }
        if length > self.bytes.len() - self.offset {
            return Err(ProtocolError::UnexpectedPayloadEnd { field });
        }
        let start = self.offset;
        let end = start + length;
        self.offset = end;
        Ok(&self.bytes[start..end])
    }

    pub fn read_u8(&mut self, field: &'static str) -> (res: Result<u8, ProtocolError>)
        ensures
            final(self).wf(),
            final(self).data() == old(self).data(),
            old(self).position() + 1 > old(self).data().len() ==> fault_view(res) == Err::<u8, ProtocolFault>(
                payload_end(field),
            ) && final(self).position() == old(self).position(),
            old(self).position() + 1 <= old(self).data().len() ==> res == Ok::<u8, ProtocolError>(
                old(self).data()[old(self).position() as int],
            ) && final(self).position() == old(self).position() + 1,
    {
        proof {
            use_type_invariant(&*self);
        }
        let bytes = match self.read_exact(field, 1) {
            Ok(b) => b,
            Err(e) => return Err(e),
        };
        Ok(bytes[0])
    }

    pub fn read_u16(&mut self, field: &'static str) -> (res: Result<u16, ProtocolError>)
        ensures
            final(self).wf(),
            final(self).data() == old(self).data(),
            old(self).position() + 2 > old(self).data().len() ==> fault_view(res) == Err::<u16, ProtocolFault>(
                payload_end(field),
            ) && final(self).position() == old(self).position(),
            old(self).position() + 2 <= old(self).data().len() ==> res is Ok && res->Ok_0 as int == be_u16(
                old(self).data(),
                old(self).position() as int,
            ) && final(self).position() == old(self).position() + 2,
    {
        proof {
            use_type_invariant(&*self);
        }
        let bytes = match self.read_exact(field, 2) {
            Ok(b) => b,
            Err(e) => return Err(e),
        };
        Ok(bytes[0] as u16 * 256 + bytes[1] as u16)
    }

    pub fn read_i16(&mut self, field: &'static str) -> (res: Result<i16, ProtocolError>)
        ensures
            final(self).wf(),
            final(self).data() == old(self).data(),
            old(self).position() + 2 > old(self).data().len() ==> fault_view(res) == Err::<i16, ProtocolFault>(
                payload_end(field),
            ) && final(self).position() == old(self).position(),
            old(self).position() + 2 <= old(self).data().len() ==> res is Ok && res->Ok_0 as int == be_i16(
                old(self).data(),
                old(self).position() as int,
            ) && final(self).position() == old(self).position() + 2,
    {
        proof {
            use_type_invariant(&*self);
        }
        let bytes = match self.read_exact(field, 2) {
            Ok(b) => b,
            Err(e) => return Err(e),
        };
        let u: u16 = bytes[0] as u16 * 256 + bytes[1] as u16;
        if u >= 32768 {
            Ok((u as i32 - 65536) as i16)
        } else {
            Ok(u as i16)
        }
    }

    pub fn read_u24(&mut self, field: &'static str) -> (res: Result<u32, ProtocolError>)
        ensures
            final(self).wf(),
            final(self).data() == old(self).data(),
            old(self).position() + 3 > old(self).data().len() ==> fault_view(res) == Err::<u32, ProtocolFault>(
                payload_end(field),
            ) && final(self).position() == old(self).position(),
            old(self).position() + 3 <= old(self).data().len() ==> res is Ok && res->Ok_0 as int == be_u24(
                old(self).data(),
                old(self).position() as int,
            ) && final(self).position() == old(self).position() + 3,
    {
        proof {
            use_type_invariant(&*self);
        }
        let bytes = match self.read_exact(field, 3) {
            Ok(b) => b,
            Err(e) => return Err(e),
        };
        Ok(bytes[0] as u32 * 65536 + bytes[1] as u32 * 256 + bytes[2] as u32)
    }

    /// Everything not read yet.
    pub fn read_remaining(&mut self) -> (res: &'a [u8])
        ensures
            final(self).wf(),
            final(self).data() == old(self).data(),
            res@ == old(self).data().subrange(old(self).position() as int, old(self).data().len() as int),
            final(self).position() == old(self).data().len(),
    {
        proof {
            use_type_invariant(&*self);
        }
        let start = self.offset;
        self.offset = self.bytes.len();
        &self.bytes[start..self.bytes.len()]
    }

    /// Fails when bytes are left over.
    pub fn ensure_exhausted(&self) -> (res: Result<(), ProtocolError>)
        ensures
            self.position() == self.data().len() ==> res is Ok,
            self.position() < self.data().len() ==> fault_view(res) == Err::<(), ProtocolFault>(
                ProtocolFault::InvalidFrame(trailing_text((self.data().len() - self.position()) as nat)),
            ),
    {
        proof {
            use_type_invariant(&*self);
        }
        if self.offset != self.bytes.len() {
            let n = self.bytes.len() - self.offset;
            return Err(ProtocolError::InvalidFrame(text_with_number("payload had ", n as u64, " unexpected trailing bytes")));
        }
        Ok(())
    }
}

/// A fixed-width text field as the modules send it: decoded leniently,
/// without NUL padding and surrounding white space.
pub open spec fn normalized_text(bytes: Seq<u8>) -> Seq<char> {
    strip(strip(lossy_utf8(bytes), CharClass::Exactly('\0')), CharClass::Whitespace)
}

/// The same for bytes that are valid UTF-8, where decoding is exact.
pub open spec fn normalized_valid_text(bytes: Seq<u8>) -> Seq<char> {
    strip(strip(vstd::utf8::decode_utf8(bytes), CharClass::Exactly('\0')), CharClass::Whitespace)
}

pub fn normalize_ascii(bytes: &[u8]) -> (res: String)
    ensures
        res@ == normalized_text(bytes@),
        vstd::utf8::valid_utf8(bytes@) ==> res@ == normalized_valid_text(bytes@),
{
    let text = from_utf8_lossy(bytes);
    let without_nul = strip_text(text.as_str(), CharClass::Exactly('\0'));
    strip_text(without_nul.as_str(), CharClass::Whitespace)
}

/// The serial number in a module serial number response.
pub open spec fn module_serial_payload(info: Seq<u8>) -> Result<Seq<char>, ProtocolFault> {
    if info.len() < 1 {
        Err(payload_end("CommandValue"))
    } else if info.len() < 17 {
        Err(payload_end("ModuleSerialNumber"))
    } else if info.len() > 17 {
        Err(ProtocolFault::InvalidFrame(trailing_text((info.len() - 17) as nat)))
    } else {
        Ok(normalized_text(info.subrange(1, 17)))
    }
}

pub open spec fn text_result_view(res: Result<String, ProtocolError>) -> Result<Seq<char>, ProtocolFault> {
    match res {
        Ok(s) => Ok(s@),
        Err(e) => Err(e@),
    }
}

/// Reads the 16 byte serial number after the command value.
pub fn parse_module_serial_number(info: &[u8]) -> (res: Result<String, ProtocolError>)
    ensures
        text_result_view(res) == module_serial_payload(info@),
        info@.len() == 17 && vstd::utf8::valid_utf8(info@.subrange(1, 17)) ==> res is Ok && res->Ok_0@
            == normalized_valid_text(info@.subrange(1, 17)),
{
    let mut payload = ByteCursor::new(info);
    let _command_value = match payload.read_u8("CommandValue") {
        Ok(v) => v,
        Err(e) => return Err(e),
    };
    let serial_number = match payload.read_exact("ModuleSerialNumber", 16) {
        Ok(v) => v,
        Err(e) => return Err(e),
    };
    match payload.ensure_exhausted() {
        Ok(()) => {},
        Err(e) => return Err(e),
    }
    Ok(normalize_ascii(serial_number))
}

/// The name of the `k`-th field of a system parameters payload.
pub open spec fn system_parameter_field(k: int) -> &'static str {
    if k == 0 {
        "CellHighVoltageLimit"
    } else if k == 1 {
        "CellLowVoltageLimit"
    } else if k == 2 {
        "CellUnderVoltageLimit"
    } else if k == 3 {
        "ChargeHighTemperatureLimit"
    } else if k == 4 {
        "ChargeLowTemperatureLimit"
    } else if k == 5 {
        "ChargeCurrentLimit"
    } else if k == 6 {
        "ModuleHighVoltageLimit"
    } else if k == 7 {
        "ModuleLowVoltageLimit"
    } else if k == 8 {
        "ModuleUnderVoltageLimit"
    } else if k == 9 {
        "DischargeHighTemperatureLimit"
    } else if k == 10 {
        "DischargeLowTemperatureLimit"
    } else {
        "DischargeCurrentLimit"
    }
}

/// The limits in a system parameters response: a flag byte, then twelve
/// big-endian 16 bit fields.
pub open spec fn system_parameters_payload(info: Seq<u8>) -> Result<SystemParameters, ProtocolFault> {
    if info.len() == 0 {
        Err(ProtocolFault::InvalidFrame("system parameters payload was empty"@))
    } else {
        let p = info.subrange(1, info.len() as int);
        if p.len() < 24 {
            Err(payload_end(system_parameter_field((p.len() / 2) as int)))
        } else if p.len() > 24 {
            Err(ProtocolFault::InvalidFrame(trailing_text((p.len() - 24) as nat)))
        } else {
            Ok(
                SystemParameters {
                    cell_high_voltage_limit_mv: be_u16(p, 0) as u16,
                    cell_low_voltage_limit_mv: be_u16(p, 2) as u16,
                    cell_under_voltage_limit_mv: be_i16(p, 4) as i16,
                    charge_high_temperature_limit_dk: be_i16(p, 6) as i16,
                    charge_low_temperature_limit_dk: be_i16(p, 8) as i16,
                    charge_current_limit_da: be_i16(p, 10) as i16,
                    module_high_voltage_limit_mv: be_u16(p, 12) as u16,
                    module_low_voltage_limit_mv: be_u16(p, 14) as u16,
                    module_under_voltage_limit_mv: be_u16(p, 16) as u16,
                    discharge_high_temperature_limit_dk: be_i16(p, 18) as i16,
                    discharge_low_temperature_limit_dk: be_i16(p, 20) as i16,
                    discharge_current_limit_da: be_i16(p, 22) as i16,
                },
            )
        }
    }
}

pub fn parse_system_parameters_payload(info: &[u8]) -> (res: Result<SystemParameters, ProtocolError>)
    ensures
        fault_view(res) == system_parameters_payload(info@),
{
    if info.len() == 0 {
        return Err(ProtocolError::InvalidFrame(String::from_str("system parameters payload was empty")));
    }
    let ghost p = info@.subrange(1, info@.len() as int);
    let mut payload = ByteCursor::new(&info[1..info.len()]);
    let cell_high_voltage_limit_mv = match payload.read_u16("CellHighVoltageLimit") {
        Ok(v) => v,
        Err(e) => return Err(e),
    };
    let cell_low_voltage_limit_mv = match payload.read_u16("CellLowVoltageLimit") {
        Ok(v) => v,
        Err(e) => return Err(e),
    };
    let cell_under_voltage_limit_mv = match payload.read_i16("CellUnderVoltageLimit") {
        Ok(v) => v,
        Err(e) => return Err(e),
    };
    let charge_high_temperature_limit_dk = match payload.read_i16("ChargeHighTemperatureLimit") {
        Ok(v) => v,
        Err(e) => return Err(e),
    };
    let charge_low_temperature_limit_dk = match payload.read_i16("ChargeLowTemperatureLimit") {
        Ok(v) => v,
        Err(e) => return Err(e),
    };
    let charge_current_limit_da = match payload.read_i16("ChargeCurrentLimit") {
        Ok(v) => v,
        Err(e) => return Err(e),
    };
    let module_high_voltage_limit_mv = match payload.read_u16("ModuleHighVoltageLimit") {
        Ok(v) => v,
        Err(e) => return Err(e),
    };
    let module_low_voltage_limit_mv = match payload.read_u16("ModuleLowVoltageLimit") {
        Ok(v) => v,
        Err(e) => return Err(e),
    };
    let module_under_voltage_limit_mv = match payload.read_u16("ModuleUnderVoltageLimit") {
        Ok(v) => v,
        Err(e) => return Err(e),
    };
    let discharge_high_temperature_limit_dk = match payload.read_i16("DischargeHighTemperatureLimit") {
        Ok(v) => v,
        Err(e) => return Err(e),
    };
    let discharge_low_temperature_limit_dk = match payload.read_i16("DischargeLowTemperatureLimit") {
        Ok(v) => v,
        Err(e) => return Err(e),
    };
    let discharge_current_limit_da = match payload.read_i16("DischargeCurrentLimit") {
        Ok(v) => v,
        Err(e) => return Err(e),
    };
    let system_parameters = SystemParameters {
        cell_high_voltage_limit_mv,
        cell_low_voltage_limit_mv,
        cell_under_voltage_limit_mv,
        charge_high_temperature_limit_dk,
        charge_low_temperature_limit_dk,
        charge_current_limit_da,
        module_high_voltage_limit_mv,
        module_low_voltage_limit_mv,
        module_under_voltage_limit_mv,
        discharge_high_temperature_limit_dk,
        discharge_low_temperature_limit_dk,
        discharge_current_limit_da,
    };
    match payload.ensure_exhausted() {
        Ok(()) => {},
        Err(e) => return Err(e),
    }
    Ok(system_parameters)
}

/// Bit `k` of a byte.
pub open spec fn bit(b: u8, k: nat) -> bool {
    (b as nat / vstd::arithmetic::power2::pow2(k)) % 2 == 1
}

/// The status flags as the management info response packs them.
pub open spec fn management_status(status: u8) -> ManagementStatus {
    ManagementStatus {
        charge_enable: bit(status, 7),
        discharge_enable: bit(status, 6),
        charge_immediately_2: bit(status, 5),
        charge_immediately_1: bit(status, 4),
        full_charge_request: bit(status, 3),
        should_charge: bit(status, 5) || bit(status, 4) || bit(status, 3),
    }
}

/// The management info response: a flag byte, the charge and discharge
/// voltage limits, the charge and discharge current limits, and a status
/// byte.
pub open spec fn management_info_payload(info: Seq<u8>) -> Result<ManagementInfo, ProtocolFault> {
    if info.len() == 0 {
        Err(ProtocolFault::InvalidFrame("management info payload was empty"@))
    } else {
        let p = info.subrange(1, info.len() as int);
        if p.len() < 2 {
            Err(payload_end("ChargeVoltageLimit"))
        } else if p.len() < 4 {
            Err(payload_end("DischargeVoltageLimit"))
        } else if p.len() < 6 {
            Err(payload_end("ChargeCurrentLimit"))
        } else if p.len() < 8 {
            Err(payload_end("DischargeCurrentLimit"))
        } else if p.len() < 9 {
            Err(payload_end("Status"))
        } else if p.len() > 9 {
            Err(ProtocolFault::InvalidFrame(trailing_text((p.len() - 9) as nat)))
        } else {
            Ok(
                ManagementInfo {
                    charge_voltage_limit_mv: be_u16(p, 0) as u16,
                    discharge_voltage_limit_mv: be_u16(p, 2) as u16,
                    charge_current_limit_da: be_i16(p, 4) as i16,
                    discharge_current_limit_da: be_i16(p, 6) as i16,
                    status: management_status(p[8]),
                },
            )
        }
    }
}

/// Whether bit `k` of `b` is set.
pub fn test_bit(b: u8, k: u32) -> (res: bool)
    requires
        k < 8,
    ensures
        res == bit(b, k as nat),
{
    let mut d: u8 = b;
    let mut i: u32 = 0;
    proof {
        vstd::arithmetic::power2::lemma2_to64();
    }
    while i < k
        invariant
            i <= k < 8,
            d as nat == b as nat / vstd::arithmetic::power2::pow2(i as nat),
        decreases k - i,
    {
        proof {
            vstd::arithmetic::power2::lemma_pow2_unfold((i + 1) as nat);
            vstd::arithmetic::power2::lemma_pow2_pos(i as nat);
            vstd::arithmetic::div_mod::lemma_div_denominator(b as int, vstd::arithmetic::power2::pow2(i as nat) as int, 2);
            assert(vstd::arithmetic::power2::pow2(i as nat) * 2 == 2 * vstd::arithmetic::power2::pow2(i as nat)) by (nonlinear_arith);
        }
        d = d / 2;
        i = i + 1;
    }
    d % 2 == 1
}

pub fn parse_management_info_payload(info: &[u8]) -> (res: Result<ManagementInfo, ProtocolError>)
    ensures
        fault_view(res) == management_info_payload(info@),
{
    if info.len() == 0 {
        return Err(ProtocolError::InvalidFrame(String::from_str("management info payload was empty")));
    }
    let mut payload = ByteCursor::new(&info[1..info.len()]);
    let charge_voltage_limit_mv = match payload.read_u16("ChargeVoltageLimit") {
        Ok(v) => v,
        Err(e) => return Err(e),
    };
    let discharge_voltage_limit_mv = match payload.read_u16("DischargeVoltageLimit") {
        Ok(v) => v,
        Err(e) => return Err(e),
    };
    let charge_current_limit_da = match payload.read_i16("ChargeCurrentLimit") {
        Ok(v) => v,
        Err(e) => return Err(e),
    };
    let discharge_current_limit_da = match payload.read_i16("DischargeCurrentLimit") {
        Ok(v) => v,
        Err(e) => return Err(e),
    };
    let status_byte = match payload.read_u8("Status") {
        Ok(v) => v,
        Err(e) => return Err(e),
    };
    match payload.ensure_exhausted() {
        Ok(()) => {},
        Err(e) => return Err(e),
    }
    let charge_immediately_2 = test_bit(status_byte, 5);
    let charge_immediately_1 = test_bit(status_byte, 4);
    let full_charge_request = test_bit(status_byte, 3);
    Ok(ManagementInfo {
        charge_voltage_limit_mv,
        discharge_voltage_limit_mv,
        charge_current_limit_da,
        discharge_current_limit_da,
        status: ManagementStatus {
            charge_enable: test_bit(status_byte, 7),
            discharge_enable: test_bit(status_byte, 6),
            charge_immediately_2,
            charge_immediately_1,
            full_charge_request,
            should_charge: charge_immediately_2 || charge_immediately_1 || full_charge_request,
        },
    })
}

pub open spec fn address_mismatch_text(expected: u8, reported: u8) -> Seq<char> {
    "requested module "@ + decimal(expected as nat) + " but response reported "@ + decimal(reported as nat)
}

pub open spec fn zero_temperatures_text(address: u8) -> Seq<char> {
    "module "@ + decimal(address as nat) + " reported zero temperatures"@
}

/// `n` big-endian two's complement 16 bit values from position `at`.
pub open spec fn be_i16_list(p: Seq<u8>, at: int, n: nat) -> Seq<i16> {
    Seq::new(n, |i: int| be_i16(p, at + 2 * i) as i16)
}

/// The module state from the readings, or the refusal of `ModuleState::new`
/// reported as an invalid frame.
pub open spec fn module_from_readings(p: Seq<u8>, c: int, t: int, remaining: int, total: int) -> Result<
    ModuleStateView,
    ProtocolFault,
> {
    let k = 3 + 2 * c + 2 * t;
    let cells = be_i16_list(p, 2, c as nat);
    if c == 0 {
        Err(ProtocolFault::InvalidFrame("invalid state: "@ + no_cells_text(p[0])))
    } else if total == 0 {
        Err(ProtocolFault::InvalidFrame("invalid state: "@ + no_capacity_text(p[0])))
    } else {
        Ok(
            ModuleStateView {
                address: p[0],
                cell_voltages_mv: cells,
                average_bms_temperature_dk: be_i16(p, 3 + 2 * c) as i16,
                grouped_cells_temperatures_dk: be_i16_list(p, 5 + 2 * c, (t - 1) as nat),
                current_da: be_i16(p, k) as i16,
                voltage_mv: be_u16(p, k + 2) as u16,
                remaining_capacity_mah: remaining as u32,
                total_capacity_mah: total as u32,
                cycle_number: be_u16(p, k + 9) as u16,
                disbalance_mv: spread(cells) as u16,
            },
        )
    }
}

/// The fields after the temperatures: current, voltage, capacities (the
/// 24 bit ones when more than two user defined items follow), cycle count.
pub open spec fn values_tail(p: Seq<u8>, c: int, t: int) -> Result<ModuleStateView, ProtocolFault> {
    let k = 3 + 2 * c + 2 * t;
    if p.len() < k + 2 {
        Err(payload_end("Current"))
    } else if p.len() < k + 4 {
        Err(payload_end("Voltage"))
    } else if p.len() < k + 6 {
        Err(payload_end("RemainingCapacity1"))
    } else if p.len() < k + 7 {
        Err(payload_end("UserDefinedItems"))
    } else if p.len() < k + 9 {
        Err(payload_end("TotalCapacity1"))
    } else if p.len() < k + 11 {
        Err(payload_end("CycleNumber"))
    } else if p[k + 6] > 2 {
        if p.len() < k + 14 {
            Err(payload_end("RemainingCapacity2"))
        } else if p.len() < k + 17 {
            Err(payload_end("TotalCapacity2"))
        } else if p.len() > k + 17 {
            Err(ProtocolFault::InvalidFrame(trailing_text((p.len() - (k + 17)) as nat)))
        } else {
            module_from_readings(p, c, t, be_u24(p, k + 11), be_u24(p, k + 14))
        }
    } else if p.len() > k + 11 {
        Err(ProtocolFault::InvalidFrame(trailing_text((p.len() - (k + 11)) as nat)))
    } else {
        module_from_readings(p, c, t, be_u16(p, k + 4), be_u16(p, k + 7))
    }
}

/// The readings after the flag byte: module number, cell voltages,
/// temperatures, then the tail.
pub open spec fn values_fields(expected: u8, p: Seq<u8>) -> Result<ModuleStateView, ProtocolFault> {
    if p.len() < 1 {
        Err(payload_end("NumberOfModule"))
    } else if p[0] != expected {
        Err(ProtocolFault::InvalidFrame(address_mismatch_text(expected, p[0])))
    } else if p.len() < 2 {
        Err(payload_end("NumberOfCells"))
    } else {
        let c = p[1] as int;
        if p.len() < 2 + 2 * c {
            Err(payload_end("CellVoltage"))
        } else if p.len() < 3 + 2 * c {
            Err(payload_end("NumberOfTemperatures"))
        } else {
            let t = p[2 + 2 * c] as int;
            if t == 0 {
                Err(ProtocolFault::InvalidFrame(zero_temperatures_text(expected)))
            } else if p.len() < 5 + 2 * c {
                Err(payload_end("AverageBMSTemperature"))
            } else if p.len() < 3 + 2 * c + 2 * t {
                Err(payload_end("GroupedCellTemperature"))
            } else {
                values_tail(p, c, t)
            }
        }
    }
}

/// The analog values response of the module at `expected`.
pub open spec fn values_single_payload(expected: u8, info: Seq<u8>) -> Result<ModuleStateView, ProtocolFault> {
    if info.len() == 0 {
        Err(ProtocolFault::InvalidFrame("values payload was empty"@))
    } else {
        values_fields(expected, info.subrange(1, info.len() as int))
    }
}

pub open spec fn module_result_view(res: Result<ModuleState, ProtocolError>) -> Result<ModuleStateView, ProtocolFault> {
    match res {
        Ok(m) => Ok(m@),
        Err(e) => Err(e@),
    }
}

/// Reads `n` 16 bit values named `field`, stopping at the first that is
/// missing.
fn read_i16_list(payload: &mut ByteCursor, field: &'static str, n: usize) -> (res: Result<Vec<i16>, ProtocolError>)
    requires
        old(payload).wf(),
    ensures
        final(payload).wf(),
        final(payload).data() == old(payload).data(),
        old(payload).position() + 2 * n > old(payload).data().len() ==> fault_view(res) == Err::<Vec<i16>, ProtocolFault>(
            payload_end(field),
        ),
        old(payload).position() + 2 * n <= old(payload).data().len() ==> res is Ok && res->Ok_0@ == be_i16_list(
            old(payload).data(),
            old(payload).position() as int,
            n as nat,
        ) && final(payload).position() == old(payload).position() + 2 * n,
{
    let ghost start = payload.position();
    let ghost data = payload.data();
    let mut values: Vec<i16> = Vec::with_capacity(n);
    let mut i: usize = 0;
    while i < n
        invariant
            i <= n,
            payload.wf(),
            payload.data() == data,
            start == old(payload).position(),
            data == old(payload).data(),
            payload.position() == start + 2 * i,
            values@ == be_i16_list(data, start as int, i as nat),
        decreases n - i,
    {
        let v = match payload.read_i16(field) {
            Ok(v) => v,
            Err(e) => return Err(e),
        };
        values.push(v);
        assert(values@ =~= be_i16_list(data, start as int, (i + 1) as nat));
        i = i + 1;
    }
    Ok(values)
}

/// Decodes the analog values of the module at `expected_address`.
pub fn parse_values_single_payload(expected_address: u8, info: &[u8]) -> (res: Result<ModuleState, ProtocolError>)
    ensures
        module_result_view(res) == values_single_payload(expected_address, info@),
        res matches Ok(state) ==> state.wf(),
{
    if info.len() == 0 {
        return Err(ProtocolError::InvalidFrame(String::from_str("values payload was empty")));
    }
    let ghost p = info@.subrange(1, info@.len() as int);
    let mut payload = ByteCursor::new(&info[1..info.len()]);
    let reported_address = match payload.read_u8("NumberOfModule") {
        Ok(v) => v,
        Err(e) => return Err(e),
    };
    if reported_address != expected_address {
        let mut m = text_with_number("requested module ", expected_address as u64, " but response reported ");
        push_decimal(&mut m, reported_address as u64);
        return Err(ProtocolError::InvalidFrame(m));
    }
    let cell_count = match payload.read_u8("NumberOfCells") {
        Ok(v) => v,
        Err(e) => return Err(e),
    };
    let cell_voltages = match read_i16_list(&mut payload, "CellVoltage", cell_count as usize) {
        Ok(v) => v,
        Err(e) => return Err(e),
    };
    let temperature_count = match payload.read_u8("NumberOfTemperatures") {
        Ok(v) => v,
        Err(e) => return Err(e),
    };
    if temperature_count == 0 {
        let m = text_with_number("module ", expected_address as u64, " reported zero temperatures");
        return Err(ProtocolError::InvalidFrame(m));
    }
    let average_bms_temperature = match payload.read_i16("AverageBMSTemperature") {
        Ok(v) => v,
        Err(e) => return Err(e),
    };
    let grouped_temperatures = match read_i16_list(&mut payload, "GroupedCellTemperature", (temperature_count - 1) as usize) {
        Ok(v) => v,
        Err(e) => return Err(e),
    };
    let current = match payload.read_i16("Current") {
        Ok(v) => v,
        Err(e) => return Err(e),
    };
    let voltage = match payload.read_u16("Voltage") {
        Ok(v) => v,
        Err(e) => return Err(e),
    };
    let remaining_capacity_primary = match payload.read_u16("RemainingCapacity1") {
        Ok(v) => v,
        Err(e) => return Err(e),
    };
    let user_defined_items = match payload.read_u8("UserDefinedItems") {
        Ok(v) => v,
        Err(e) => return Err(e),
    };
    let total_capacity_primary = match payload.read_u16("TotalCapacity1") {
        Ok(v) => v,
        Err(e) => return Err(e),
    };
    let cycle_number = match payload.read_u16("CycleNumber") {
        Ok(v) => v,
        Err(e) => return Err(e),
    };
    let (remaining_capacity, total_capacity) = if user_defined_items > 2 {
        let remaining = match payload.read_u24("RemainingCapacity2") {
            Ok(v) => v,
            Err(e) => return Err(e),
        };
        let total = match payload.read_u24("TotalCapacity2") {
            Ok(v) => v,
            Err(e) => return Err(e),
        };
        (remaining, total)
    } else {
        (remaining_capacity_primary as u32, total_capacity_primary as u32)
    };
    match payload.ensure_exhausted() {
        Ok(()) => {},
        Err(e) => return Err(e),
    }
    match ModuleState::new(
        reported_address,
        cell_voltages,
        average_bms_temperature,
        grouped_temperatures,
        current,
        voltage,
        remaining_capacity,
        total_capacity,
        cycle_number,
    ) {
        Ok(state) => Ok(state),
        Err(error) => Err(ProtocolError::InvalidFrame(error.message())),
    }
}

/// What a module says about itself in the manufacturer info response.
#[derive(Debug, Clone, PartialEq, Eq)]
pub struct ManufacturerInfo {
    pub device_name: String,
    pub software_version: String,
    pub manufacturer_name: String,
}

/// The two version bytes as "major.minor".
pub open spec fn version_text(major: u8, minor: u8) -> Seq<char> {
    decimal(major as nat) + "."@ + decimal(minor as nat)
}

/// Reads the manufacturer info: a ten byte device name, two version bytes,
/// and the manufacturer name in the rest.
pub fn parse_manufacturer_info(info: &[u8]) -> (res: Result<ManufacturerInfo, ProtocolError>)
    ensures
        info@.len() < 10 ==> fault_view(res) == Err::<ManufacturerInfo, ProtocolFault>(payload_end("DeviceName")),
        10 <= info@.len() < 12 ==> fault_view(res) == Err::<ManufacturerInfo, ProtocolFault>(
            payload_end("SoftwareVersion"),
        ),
        info@.len() >= 12 ==> res is Ok && res->Ok_0.device_name@ == normalized_text(info@.subrange(0, 10))
            && res->Ok_0.software_version@ == version_text(info@[10], info@[11])
            && res->Ok_0.manufacturer_name@ == normalized_text(info@.subrange(12, info@.len() as int)),
        info@.len() >= 12 && vstd::utf8::valid_utf8(info@.subrange(0, 10)) ==> res is Ok
            && res->Ok_0.device_name@ == normalized_valid_text(info@.subrange(0, 10)),
        info@.len() >= 12 && vstd::utf8::valid_utf8(info@.subrange(12, info@.len() as int)) ==> res is Ok
            && res->Ok_0.manufacturer_name@ == normalized_valid_text(info@.subrange(12, info@.len() as int)),
{
    let mut payload = ByteCursor::new(info);
    let device_bytes = match payload.read_exact("DeviceName", 10) {
        Ok(v) => v,
        Err(e) => return Err(e),
    };
    let device_name = normalize_ascii(device_bytes);
    let version_bytes = match payload.read_exact("SoftwareVersion", 2) {
        Ok(v) => v,
        Err(e) => return Err(e),
    };
    let manufacturer_name = normalize_ascii(payload.read_remaining());
    let mut software_version = String::new();
    push_decimal(&mut software_version, version_bytes[0] as u64);
    software_version.append(".");
    push_decimal(&mut software_version, version_bytes[1] as u64);
    Ok(ManufacturerInfo { device_name, software_version, manufacturer_name })
}

pub open spec fn serial_outcome_view(res: Result<Option<String>, ProtocolError>) -> Result<Option<Seq<char>>, ProtocolFault> {
    match res {
        Ok(Some(s)) => Ok(Some(s@)),
        Ok(None) => Ok(None),
        Err(e) => Err(e@),
    }
}

/// What the answer to a serial number request says about the address: a
/// timeout means no module there, an answer gives its serial number, any
/// other failure stands.
pub fn module_serial_from_response(response: Result<ResponseFrame, ProtocolError>) -> (res: Result<Option<String>, ProtocolError>)
    ensures
        response matches Err(ProtocolError::Timeout) ==> res matches Ok(None),
        response is Err && !(response matches Err(ProtocolError::Timeout)) ==> res is Err && res->Err_0@
            == response->Err_0@,
        response is Ok ==> serial_outcome_view(res) == match module_serial_payload(response->Ok_0.info@) {
            Ok(s) => Ok::<Option<Seq<char>>, ProtocolFault>(Some(s)),
            Err(e) => Err(e),
        },
{
    match response {
        Ok(frame) => match parse_module_serial_number(frame.info.as_slice()) {
            Ok(serial) => Ok(Some(serial)),
            Err(e) => Err(e),
        },
        Err(ProtocolError::Timeout) => Ok(None),
        Err(error) => Err(error),
    }
}

/// The identity of a discovered module from its serial number, its
/// manufacturer info and one poll of its values.
pub fn module_identity(address: u8, serial_number: String, manufacturer_info: ManufacturerInfo, module_state: &ModuleState) -> (res: ModuleIdentity)
    ensures
        res.address == address,
        res.serial_number == serial_number,
        res.manufacturer_name == manufacturer_info.manufacturer_name,
        res.device_name == manufacturer_info.device_name,
        res.software_version == manufacturer_info.software_version,
        res.cell_count as int == module_state.cell_voltages_mv@.len() % 256,
{
    ModuleIdentity {
        address,
        serial_number,
        manufacturer_name: manufacturer_info.manufacturer_name,
        device_name: manufacturer_info.device_name,
        software_version: manufacturer_info.software_version,
        cell_count: (module_state.cell_voltages_mv.len() % 256) as u8,
    }
}

/// The unsigned big-endian 16 bit number in the two bytes `hi`, `lo`.
pub open spec fn word(hi: u8, lo: u8) -> int {
    hi * 256 + lo
}

/// The two's complement big-endian 16 bit number in the two bytes `hi`, `lo`.
pub open spec fn signed_word(hi: u8, lo: u8) -> int {
    if hi >= 128 {
        hi * 256 + lo - 65536
    } else {
        hi * 256 + lo
    }
}

/// Where each reading of an analog values response sits. After the flag
/// byte come the module number, the cell count `c` and `c` cell voltages,
/// the temperature count `t`, the average BMS temperature and `t - 1`
/// grouped temperatures, then, from byte `k`, the current, the voltage, the
/// 16 bit remaining capacity, the count of user defined items, the 16 bit
/// total capacity and the cycle count. With at most two user defined items
/// the capacities are the 16 bit ones; with more, the 24 bit remaining and
/// total capacities that follow the cycle count.
pub proof fn lemma_values_fields_at_their_positions(expected: u8, info: Seq<u8>)
    ensures
        values_single_payload(expected, info) matches Ok(m) ==> {
            let c = info[2] as int;
            let t = info[3 + 2 * c] as int;
            let k = 4 + 2 * c + 2 * t;
            &&& m.address == expected
            &&& info[1] == expected
            &&& m.cell_voltages_mv.len() == c
            &&& forall|i: int| 0 <= i < c ==> #[trigger] m.cell_voltages_mv[i] as int == signed_word(info[3 + 2 * i], info[4 + 2 * i])
            &&& m.average_bms_temperature_dk as int == signed_word(info[4 + 2 * c], info[5 + 2 * c])
            &&& m.grouped_cells_temperatures_dk.len() == t - 1
            &&& forall|i: int| 0 <= i < t - 1 ==> #[trigger] m.grouped_cells_temperatures_dk[i] as int == signed_word(
                info[6 + 2 * c + 2 * i],
                info[7 + 2 * c + 2 * i],
            )
            &&& m.current_da as int == signed_word(info[k], info[k + 1])
            &&& m.voltage_mv as int == word(info[k + 2], info[k + 3])
            &&& m.cycle_number as int == word(info[k + 9], info[k + 10])
            &&& info[k + 6] <= 2 ==> m.remaining_capacity_mah as int == word(info[k + 4], info[k + 5])
                && m.total_capacity_mah as int == word(info[k + 7], info[k + 8])
            &&& info[k + 6] > 2 ==> m.remaining_capacity_mah as int == info[k + 11] * 65536 + word(info[k + 12], info[k + 13])
                && m.total_capacity_mah as int == info[k + 14] * 65536 + word(info[k + 15], info[k + 16])
            &&& m.total_capacity_mah > 0
            &&& m.disbalance_mv as int == spread(m.cell_voltages_mv)
        },
{
    if values_single_payload(expected, info) is Ok {
        let p = info.subrange(1, info.len() as int);
        let c = p[1] as int;
        let t = p[2 + 2 * c] as int;
        let k = 3 + 2 * c + 2 * t;
        assert(p[0] == info[1]);
        assert(p[1] == info[2]);
        assert(p[2 + 2 * c] == info[3 + 2 * c]);
        assert forall|j: int| 0 <= j < p.len() implies #[trigger] p[j] == info[j + 1] by {}
        let m = values_single_payload(expected, info)->Ok_0;
        assert forall|i: int| 0 <= i < c implies #[trigger] m.cell_voltages_mv[i] as int == signed_word(
            info[3 + 2 * i],
            info[4 + 2 * i],
        ) by {
            assert(p[2 + 2 * i] == info[3 + 2 * i]);
            assert(p[3 + 2 * i] == info[4 + 2 * i]);
        }
        assert forall|i: int| 0 <= i < t - 1 implies #[trigger] m.grouped_cells_temperatures_dk[i] as int == signed_word(
            info[6 + 2 * c + 2 * i],
            info[7 + 2 * c + 2 * i],
        ) by {
            assert(p[5 + 2 * c + 2 * i] == info[6 + 2 * c + 2 * i]);
            assert(p[6 + 2 * c + 2 * i] == info[7 + 2 * c + 2 * i]);
        }
        assert(p[3 + 2 * c] == info[4 + 2 * c]);
        assert(p[4 + 2 * c] == info[5 + 2 * c]);
        assert(p[k] == info[k + 1]);
        assert(p[k + 1] == info[k + 2]);
        assert(p[k + 2] == info[k + 3]);
        assert(p[k + 3] == info[k + 4]);
        assert(p[k + 4] == info[k + 5]);
        assert(p[k + 5] == info[k + 6]);
        assert(p[k + 6] == info[k + 7]);
        assert(p[k + 7] == info[k + 8]);
        assert(p[k + 8] == info[k + 9]);
        assert(p[k + 9] == info[k + 10]);
        assert(p[k + 10] == info[k + 11]);
        if p[k + 6] > 2 {
            assert(p[k + 11] == info[k + 12]);
            assert(p[k + 12] == info[k + 13]);
            assert(p[k + 13] == info[k + 14]);
            assert(p[k + 14] == info[k + 15]);
            assert(p[k + 15] == info[k + 16]);
            assert(p[k + 16] == info[k + 17]);
        }
        crate::model::lemma_seq_min_max(m.cell_voltages_mv);
        let lo = choose|i: int| 0 <= i < m.cell_voltages_mv.len() && crate::model::seq_min(m.cell_voltages_mv) == #[trigger] m.cell_voltages_mv[i] as int;
        let hi = choose|i: int| 0 <= i < m.cell_voltages_mv.len() && crate::model::seq_max(m.cell_voltages_mv) == #[trigger] m.cell_voltages_mv[i] as int;
        assert(0 <= spread(m.cell_voltages_mv) <= 65535);
    }
}

/// Where each limit of a system parameters response sits: after the flag
/// byte, in this order, the cell high, low and under voltage limits, the
/// charge high and low temperature limits, the charge current limit, the
/// module high, low and under voltage limits, the discharge high and low
/// temperature limits and the discharge current limit, two bytes each.
pub proof fn lemma_system_parameters_at_their_positions(info: Seq<u8>)
    ensures
        system_parameters_payload(info) matches Ok(s) ==> {
            &&& info.len() == 25
            &&& s.cell_high_voltage_limit_mv as int == word(info[1], info[2])
            &&& s.cell_low_voltage_limit_mv as int == word(info[3], info[4])
            &&& s.cell_under_voltage_limit_mv as int == signed_word(info[5], info[6])
            &&& s.charge_high_temperature_limit_dk as int == signed_word(info[7], info[8])
            &&& s.charge_low_temperature_limit_dk as int == signed_word(info[9], info[10])
            &&& s.charge_current_limit_da as int == signed_word(info[11], info[12])
            &&& s.module_high_voltage_limit_mv as int == word(info[13], info[14])
            &&& s.module_low_voltage_limit_mv as int == word(info[15], info[16])
            &&& s.module_under_voltage_limit_mv as int == word(info[17], info[18])
            &&& s.discharge_high_temperature_limit_dk as int == signed_word(info[19], info[20])
            &&& s.discharge_low_temperature_limit_dk as int == signed_word(info[21], info[22])
            &&& s.discharge_current_limit_da as int == signed_word(info[23], info[24])
        },
{
    if system_parameters_payload(info) is Ok {
        let p = info.subrange(1, info.len() as int);
        assert forall|j: int| 0 <= j < p.len() implies #[trigger] p[j] == info[j + 1] by {}
        assert(p[0] == info[1] && p[1] == info[2] && p[2] == info[3] && p[3] == info[4]);
        assert(p[4] == info[5] && p[5] == info[6] && p[6] == info[7] && p[7] == info[8]);
        assert(p[8] == info[9] && p[9] == info[10] && p[10] == info[11] && p[11] == info[12]);
        assert(p[12] == info[13] && p[13] == info[14] && p[14] == info[15] && p[15] == info[16]);
        assert(p[16] == info[17] && p[17] == info[18] && p[18] == info[19] && p[19] == info[20]);
        assert(p[20] == info[21] && p[21] == info[22] && p[22] == info[23] && p[23] == info[24]);
    }
}

/// Where each field of a management info response sits: after the flag
/// byte the charge and discharge voltage limits, the charge and discharge
/// current limits, two bytes each, then the status byte `s`. Its top bit
/// enables charging, the next discharging; the next three ask to charge
/// immediately (two levels) and for a full charge, and the module should
/// charge when any of those three is set.
pub proof fn lemma_management_info_at_their_positions(info: Seq<u8>)
    ensures
        management_info_payload(info) matches Ok(m) ==> {
            let s = info[9];
            &&& info.len() == 10
            &&& m.charge_voltage_limit_mv as int == word(info[1], info[2])
            &&& m.discharge_voltage_limit_mv as int == word(info[3], info[4])
            &&& m.charge_current_limit_da as int == signed_word(info[5], info[6])
            &&& m.discharge_current_limit_da as int == signed_word(info[7], info[8])
            &&& m.status.charge_enable == (s & 0x80 != 0)
            &&& m.status.discharge_enable == (s & 0x40 != 0)
            &&& m.status.charge_immediately_2 == (s & 0x20 != 0)
            &&& m.status.charge_immediately_1 == (s & 0x10 != 0)
            &&& m.status.full_charge_request == (s & 0x08 != 0)
            &&& m.status.should_charge == (s & 0x38 != 0)
        },
{
    if management_info_payload(info) is Ok {
        let p = info.subrange(1, info.len() as int);
        assert forall|j: int| 0 <= j < p.len() implies #[trigger] p[j] == info[j + 1] by {}
        assert(p[0] == info[1] && p[1] == info[2] && p[2] == info[3] && p[3] == info[4]);
        assert(p[4] == info[5] && p[5] == info[6] && p[6] == info[7] && p[7] == info[8]);
        assert(p[8] == info[9]);
        lemma_status_bits(info[9]);
    }
}

proof fn lemma_status_bits(s: u8)
    ensures
        bit(s, 7) == (s & 0x80 != 0),
        bit(s, 6) == (s & 0x40 != 0),
        bit(s, 5) == (s & 0x20 != 0),
        bit(s, 4) == (s & 0x10 != 0),
        bit(s, 3) == (s & 0x08 != 0),
        (bit(s, 5) || bit(s, 4) || bit(s, 3)) == (s & 0x38 != 0),
{
    vstd::arithmetic::power2::lemma2_to64();
    assert((s / 128) % 2 == 1 <==> s & 0x80 != 0) by (bit_vector);
    assert((s / 64) % 2 == 1 <==> s & 0x40 != 0) by (bit_vector);
    assert((s / 32) % 2 == 1 <==> s & 0x20 != 0) by (bit_vector);
    assert((s / 16) % 2 == 1 <==> s & 0x10 != 0) by (bit_vector);
    assert((s / 8) % 2 == 1 <==> s & 0x08 != 0) by (bit_vector);
    assert((s & 0x38 != 0) <==> (s & 0x20 != 0 || s & 0x10 != 0 || s & 0x08 != 0)) by (bit_vector);
}

} // verus!
