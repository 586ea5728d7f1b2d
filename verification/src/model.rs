//! The battery model as the modules report it: raw integer readings in the
//! protocol's own units, and the figures derived from them.
use vstd::prelude::*;
use crate::error::{AppError, AppFault, app_view};
use crate::text::{decimal, text_with_number};

verus! {

/// What identifies one battery module on the bus.
#[derive(Debug, Clone, PartialEq, Eq)]
pub struct ModuleIdentity {
    pub address: u8,
    pub serial_number: String,
    pub manufacturer_name: String,
    pub device_name: String,
    pub software_version: String,
    pub cell_count: u8,
}

/// One poll of a module. Voltages are in millivolts, temperatures in tenths
/// of a kelvin, the current in tenths of an ampere (negative: discharging),
/// capacities in milliampere hours.
#[derive(Debug, Clone, PartialEq, Eq)]
pub struct ModuleState {
    pub address: u8,
    pub cell_voltages_mv: Vec<i16>,
    pub average_bms_temperature_dk: i16,
    pub grouped_cells_temperatures_dk: Vec<i16>,
    pub current_da: i16,
    pub voltage_mv: u16,
    pub remaining_capacity_mah: u32,
    pub total_capacity_mah: u32,
    pub cycle_number: u16,
    /// Highest minus lowest cell voltage.
    pub disbalance_mv: u16,
}

/// The limits a module reports: voltages in millivolts, temperatures in
/// tenths of a kelvin, currents in tenths of an ampere.
#[derive(Debug, Clone, Copy, PartialEq, Eq)]
pub struct SystemParameters {
    pub cell_high_voltage_limit_mv: u16,
    pub cell_low_voltage_limit_mv: u16,
    pub cell_under_voltage_limit_mv: i16,
    pub charge_high_temperature_limit_dk: i16,
    pub charge_low_temperature_limit_dk: i16,
    pub charge_current_limit_da: i16,
    pub module_high_voltage_limit_mv: u16,
    pub module_low_voltage_limit_mv: u16,
    pub module_under_voltage_limit_mv: u16,
    pub discharge_high_temperature_limit_dk: i16,
    pub discharge_low_temperature_limit_dk: i16,
    pub discharge_current_limit_da: i16,
}

/// The battery management status flags.
#[derive(Debug, Clone, Copy, PartialEq, Eq)]
pub struct ManagementStatus {
    pub charge_enable: bool,
    pub discharge_enable: bool,
    pub charge_immediately_2: bool,
    pub charge_immediately_1: bool,
    pub full_charge_request: bool,
    pub should_charge: bool,
}

/// The charge and discharge limits the battery management asks for
/// (millivolts, tenths of an ampere) and its status.
#[derive(Debug, Clone, Copy, PartialEq, Eq)]
pub struct ManagementInfo {
    pub charge_voltage_limit_mv: u16,
    pub discharge_voltage_limit_mv: u16,
    pub charge_current_limit_da: i16,
    pub discharge_current_limit_da: i16,
    pub status: ManagementStatus,
}

/// A module state with its lists as sequences.
pub struct ModuleStateView {
    pub address: u8,
    pub cell_voltages_mv: Seq<i16>,
    pub average_bms_temperature_dk: i16,
    pub grouped_cells_temperatures_dk: Seq<i16>,
    pub current_da: i16,
    pub voltage_mv: u16,
    pub remaining_capacity_mah: u32,
    pub total_capacity_mah: u32,
    pub cycle_number: u16,
    pub disbalance_mv: u16,
}

impl View for ModuleState {
    type V = ModuleStateView;

    open spec fn view(&self) -> ModuleStateView {
        ModuleStateView {
            address: self.address,
            cell_voltages_mv: self.cell_voltages_mv@,
            average_bms_temperature_dk: self.average_bms_temperature_dk,
            grouped_cells_temperatures_dk: self.grouped_cells_temperatures_dk@,
            current_da: self.current_da,
            voltage_mv: self.voltage_mv,
            remaining_capacity_mah: self.remaining_capacity_mah,
            total_capacity_mah: self.total_capacity_mah,
            cycle_number: self.cycle_number,
            disbalance_mv: self.disbalance_mv,
        }
    }
}

/// The lowest value of a non-empty sequence.
pub open spec fn seq_min(s: Seq<i16>) -> int
    decreases s.len(),
{
    if s.len() <= 1 {
        s[0] as int
    } else if seq_min(s.drop_last()) <= s.last() as int {
        seq_min(s.drop_last())
    } else {
        s.last() as int
    }
}

/// The highest value of a non-empty sequence.
pub open spec fn seq_max(s: Seq<i16>) -> int
    decreases s.len(),
{
    if s.len() <= 1 {
        s[0] as int
    } else if seq_max(s.drop_last()) >= s.last() as int {
        seq_max(s.drop_last())
    } else {
        s.last() as int
    }
}

/// `seq_min` and `seq_max` are a lower and an upper bound that occur in the
/// sequence.
pub proof fn lemma_seq_min_max(s: Seq<i16>)
    requires
        s.len() > 0,
    ensures
        forall|i: int| 0 <= i < s.len() ==> seq_min(s) <= #[trigger] s[i] as int <= seq_max(s),
        exists|i: int| 0 <= i < s.len() && seq_min(s) == #[trigger] s[i] as int,
        exists|i: int| 0 <= i < s.len() && seq_max(s) == #[trigger] s[i] as int,
    decreases s.len(),
{
    if s.len() > 1 {
        let p = s.drop_last();
        lemma_seq_min_max(p);
        assert forall|i: int| 0 <= i < s.len() implies seq_min(s) <= #[trigger] s[i] as int <= seq_max(s) by {
            if i < s.len() - 1 {
                assert(s[i] == p[i]);
            }
        }
        let a = choose|i: int| 0 <= i < p.len() && seq_min(p) == #[trigger] p[i] as int;
        let b = choose|i: int| 0 <= i < p.len() && seq_max(p) == #[trigger] p[i] as int;
        assert(s[a] == p[a]);
        assert(s[b] == p[b]);
        let last = s.len() - 1;
        if seq_min(p) <= s.last() as int {
            assert(seq_min(s) == s[a] as int);
        } else {
            assert(seq_min(s) == s[last] as int);
        }
        if seq_max(p) >= s.last() as int {
            assert(seq_max(s) == s[b] as int);
        } else {
            assert(seq_max(s) == s[last] as int);
        }
    } else {
        assert(seq_min(s) == s[0] as int);
        assert(seq_max(s) == s[0] as int);
    }
}

/// Cell spread of a non-empty cell list: highest minus lowest.
pub open spec fn spread(cells: Seq<i16>) -> int {
    seq_max(cells) - seq_min(cells)
}

pub open spec fn no_cells_text(address: u8) -> Seq<char> {
    "module "@ + decimal(address as nat) + " had no cell voltages"@
}

pub open spec fn no_capacity_text(address: u8) -> Seq<char> {
    "module "@ + decimal(address as nat) + " total capacity must be positive"@
}

impl ModuleState {
    /// A state built from readings: at least one cell, a positive total
    /// capacity, and the spread of the cells as disbalance.
    pub open spec fn wf(&self) -> bool {
        &&& self.cell_voltages_mv@.len() > 0
        &&& self.total_capacity_mah > 0
        &&& self.disbalance_mv as int == spread(self.cell_voltages_mv@)
    }

    /// Builds the state of one module from its readings; a module without
    /// cells, or with no total capacity, is refused.
    pub fn new(
        address: u8,
        cell_voltages_mv: Vec<i16>,
        average_bms_temperature_dk: i16,
        grouped_cells_temperatures_dk: Vec<i16>,
        current_da: i16,
        voltage_mv: u16,
        remaining_capacity_mah: u32,
        total_capacity_mah: u32,
        cycle_number: u16,
    ) -> (res: Result<ModuleState, AppError>)
        ensures
            cell_voltages_mv@.len() == 0 ==> app_view(res) == Err::<ModuleState, AppFault>(
                AppFault::InvalidState(no_cells_text(address)),
            ),
            cell_voltages_mv@.len() > 0 && total_capacity_mah == 0 ==> app_view(res) == Err::<ModuleState, AppFault>(
                AppFault::InvalidState(no_capacity_text(address)),
            ),
            cell_voltages_mv@.len() > 0 && total_capacity_mah > 0 ==> (res matches Ok(state) && state.wf()
                && state.address == address
                && state.cell_voltages_mv@ == cell_voltages_mv@
                && state.average_bms_temperature_dk == average_bms_temperature_dk
                && state.grouped_cells_temperatures_dk@ == grouped_cells_temperatures_dk@
                && state.current_da == current_da
                && state.voltage_mv == voltage_mv
                && state.remaining_capacity_mah == remaining_capacity_mah
                && state.total_capacity_mah == total_capacity_mah
                && state.cycle_number == cycle_number),
    {
        if cell_voltages_mv.len() == 0 {
            let m = text_with_number("module ", address as u64, " had no cell voltages");
            return Err(AppError::InvalidState(m));
        }
        if total_capacity_mah == 0 {
            let m = text_with_number("module ", address as u64, " total capacity must be positive");
            return Err(AppError::InvalidState(m));
        }
        let (min_voltage, max_voltage) = cell_range(&cell_voltages_mv);
        let disbalance_mv = (max_voltage as i32 - min_voltage as i32) as u16;
        Ok(ModuleState {
            address,
            cell_voltages_mv,
            average_bms_temperature_dk,
            grouped_cells_temperatures_dk,
            current_da,
            voltage_mv,
            remaining_capacity_mah,
            total_capacity_mah,
            cycle_number,
            disbalance_mv,
        })
    }
}

/// The lowest and highest cell voltage.
pub fn cell_range(cells: &Vec<i16>) -> (res: (i16, i16))
    requires
        cells@.len() > 0,
    ensures
        res.0 as int == seq_min(cells@),
        res.1 as int == seq_max(cells@),
{
    let mut lo = cells[0];
    let mut hi = cells[0];
    let mut i: usize = 1;
    while i < cells.len()
        invariant
            1 <= i <= cells@.len(),
            lo as int == seq_min(cells@.take(i as int)),
            hi as int == seq_max(cells@.take(i as int)),
        decreases cells@.len() - i,
    {
        assert(cells@.take(i + 1).drop_last() =~= cells@.take(i as int));
        if cells[i] < lo {
            lo = cells[i];
        }
        if cells[i] > hi {
            hi = cells[i];
        }
        i = i + 1;
    }
    assert(cells@.take(i as int) =~= cells@);
    (lo, hi)
}

/// The stack as a whole: the spread of all cells of all modules, and the
/// module with the widest spread of its own cells (millivolts).
#[derive(Debug, Clone, PartialEq, Eq)]
pub struct StackState {
    pub stack_disbalance_mv: u16,
    pub max_module_disbalance_mv: u16,
    pub max_module_id: u8,
}

pub open spec fn module_spread(m: ModuleState) -> int {
    spread(m.cell_voltages_mv@)
}

/// The lowest cell voltage of all modules.
pub open spec fn stack_min(ms: Seq<ModuleState>) -> int
    decreases ms.len(),
{
    if ms.len() <= 1 {
        seq_min(ms[0].cell_voltages_mv@)
    } else if stack_min(ms.drop_last()) <= seq_min(ms.last().cell_voltages_mv@) {
        stack_min(ms.drop_last())
    } else {
        seq_min(ms.last().cell_voltages_mv@)
    }
}

/// The highest cell voltage of all modules.
pub open spec fn stack_max(ms: Seq<ModuleState>) -> int
    decreases ms.len(),
{
    if ms.len() <= 1 {
        seq_max(ms[0].cell_voltages_mv@)
    } else if stack_max(ms.drop_last()) >= seq_max(ms.last().cell_voltages_mv@) {
        stack_max(ms.drop_last())
    } else {
        seq_max(ms.last().cell_voltages_mv@)
    }
}

/// The position of the first module with the widest cell spread.
pub open spec fn widest_module(ms: Seq<ModuleState>) -> int
    decreases ms.len(),
{
    if ms.len() <= 1 {
        0
    } else if module_spread(ms.last()) > module_spread(ms[widest_module(ms.drop_last())]) {
        ms.len() - 1
    } else {
        widest_module(ms.drop_last())
    }
}

pub open spec fn all_have_cells(ms: Seq<ModuleState>) -> bool {
    forall|i: int| 0 <= i < ms.len() ==> (#[trigger] ms[i]).cell_voltages_mv@.len() > 0
}

/// The widest module is a module, no module is wider, and every module
/// before it is narrower.
pub proof fn lemma_widest_module(ms: Seq<ModuleState>)
    requires
        ms.len() > 0,
    ensures
        0 <= widest_module(ms) < ms.len(),
        forall|i: int| 0 <= i < ms.len() ==> module_spread(#[trigger] ms[i]) <= module_spread(ms[widest_module(ms)]),
        forall|i: int| 0 <= i < widest_module(ms) ==> module_spread(#[trigger] ms[i]) < module_spread(ms[widest_module(ms)]),
    decreases ms.len(),
{
    if ms.len() > 1 {
        let p = ms.drop_last();
        lemma_widest_module(p);
        let w = widest_module(p);
        assert(ms[w] == p[w]);
        assert forall|i: int| 0 <= i < ms.len() implies module_spread(#[trigger] ms[i]) <= module_spread(ms[widest_module(ms)]) by {
            if i < ms.len() - 1 {
                assert(ms[i] == p[i]);
            }
        }
        assert forall|i: int| 0 <= i < widest_module(ms) implies module_spread(#[trigger] ms[i]) < module_spread(ms[widest_module(ms)]) by {
            if i < ms.len() - 1 {
                assert(ms[i] == p[i]);
            }
        }
    }
}

pub open spec fn no_modules_text() -> Seq<char> {
    "cannot derive stack state from zero modules"@
}

pub open spec fn module_without_cells_text() -> Seq<char> {
    "module state without cell voltages"@
}

impl StackState {
    /// Derives the stack figures from the module states; an empty stack is
    /// refused, and so is a module without cell voltages, which has no span.
    pub fn from_modules(modules: &[ModuleState]) -> (res: Result<StackState, AppError>)
        ensures
            modules@.len() == 0 ==> app_view(res) == Err::<StackState, AppFault>(AppFault::InvalidState(no_modules_text())),
            modules@.len() > 0 && !all_have_cells(modules@) ==> app_view(res) == Err::<StackState, AppFault>(
                AppFault::InvalidState(module_without_cells_text()),
            ),
            modules@.len() > 0 && all_have_cells(modules@) ==> (res matches Ok(stack)
                && stack.stack_disbalance_mv as int == stack_max(modules@) - stack_min(modules@)
                && stack.max_module_disbalance_mv as int == module_spread(modules@[widest_module(modules@)])
                && stack.max_module_id == modules@[widest_module(modules@)].address
                && (forall|i: int| 0 <= i < modules@.len() ==>
                    module_spread(#[trigger] modules@[i]) <= stack.max_module_disbalance_mv as int)),
    {
        if modules.len() == 0 {
            return Err(AppError::InvalidState(String::from_str("cannot derive stack state from zero modules")));
        }
        let mut k: usize = 0;
        while k < modules.len()
            invariant
                k <= modules@.len(),
                forall|i: int| 0 <= i < k ==> (#[trigger] modules@[i]).cell_voltages_mv@.len() > 0,
            decreases modules@.len() - k,
        {
            if modules[k].cell_voltages_mv.len() == 0 {
                return Err(AppError::InvalidState(String::from_str("module state without cell voltages")));
            }
            k = k + 1;
        }
        let (first_min, first_max) = cell_range(&modules[0].cell_voltages_mv);
        let mut global_min: i16 = first_min;
        let mut global_max: i16 = first_max;
        let mut max_module_disbalance: i32 = first_max as i32 - first_min as i32;
        let mut max_module_id: u8 = modules[0].address;
        let ghost mut widest: int = 0;
        let mut i: usize = 1;
        while i < modules.len()
            invariant
                1 <= i <= modules@.len(),
                all_have_cells(modules@),
                global_min as int == stack_min(modules@.take(i as int)),
                global_max as int == stack_max(modules@.take(i as int)),
                widest == widest_module(modules@.take(i as int)),
                0 <= widest < i,
                max_module_disbalance as int == module_spread(modules@[widest]),
                max_module_id == modules@[widest].address,
            decreases modules@.len() - i,
        {
            let ghost prefix = modules@.take(i as int);
            let ghost next = modules@.take(i + 1);
            assert(next.drop_last() =~= prefix);
            assert(next.last() == modules@[i as int]);
            assert(prefix[widest] == modules@[widest]);
            assert(modules@[i as int].cell_voltages_mv@.len() > 0);
            let (module_min, module_max) = cell_range(&modules[i].cell_voltages_mv);
            let module_disbalance: i32 = module_max as i32 - module_min as i32;
            if module_min < global_min {
                global_min = module_min;
            }
            if module_max > global_max {
                global_max = module_max;
            }
            if module_disbalance > max_module_disbalance {
                max_module_disbalance = module_disbalance;
                max_module_id = modules[i].address;
                proof {
                    widest = i as int;
                }
            }
            i = i + 1;
        }
        assert(modules@.take(i as int) =~= modules@);
        proof {
            lemma_widest_module(modules@);
            lemma_seq_min_max(modules@[0].cell_voltages_mv@);
            lemma_stack_bounds(modules@);
        }
        Ok(StackState {
            stack_disbalance_mv: (global_max as i32 - global_min as i32) as u16,
            max_module_disbalance_mv: max_module_disbalance as u16,
            max_module_id,
        })
    }
}

proof fn lemma_stack_bounds(ms: Seq<ModuleState>)
    requires
        ms.len() > 0,
        all_have_cells(ms),
    ensures
        seq_min(ms[0].cell_voltages_mv@) >= stack_min(ms),
        seq_max(ms[0].cell_voltages_mv@) <= stack_max(ms),
        -32768 <= stack_min(ms) <= stack_max(ms) <= 32767,
        forall|i: int| 0 <= i < ms.len() ==> 0 <= #[trigger] module_spread(ms[i]) <= 65535,
    decreases ms.len(),
{
    lemma_seq_min_max(ms[0].cell_voltages_mv@);
    let c0 = ms[0].cell_voltages_mv@;
    assert(c0[0] == c0[0]);
    if ms.len() > 1 {
        let p = ms.drop_last();
        assert(p[0] == ms[0]);
        assert(all_have_cells(p)) by {
            assert forall|i: int| 0 <= i < p.len() implies (#[trigger] p[i]).cell_voltages_mv@.len() > 0 by {
                assert(p[i] == ms[i]);
            }
        }
        lemma_stack_bounds(p);
        let last = ms[ms.len() - 1];
        lemma_seq_min_max(last.cell_voltages_mv@);
        assert(last.cell_voltages_mv@[0] == last.cell_voltages_mv@[0]);
        assert forall|i: int| 0 <= i < ms.len() implies 0 <= #[trigger] module_spread(ms[i]) <= 65535 by {
            if i < ms.len() - 1 {
                assert(ms[i] == p[i]);
            }
        }
    } else {
        assert forall|i: int| 0 <= i < ms.len() implies 0 <= #[trigger] module_spread(ms[i]) <= 65535 by {
            assert(i == 0);
        }
    }
}

/// Every cell of every module lies between the stack's lowest and highest
/// cell voltage, so no module spreads wider than the stack as a whole.
pub proof fn lemma_stack_covers_modules(ms: Seq<ModuleState>)
    requires
        ms.len() > 0,
        all_have_cells(ms),
    ensures
        forall|i: int|
            0 <= i < ms.len() ==> stack_min(ms) <= seq_min((#[trigger] ms[i]).cell_voltages_mv@)
                && seq_max(ms[i].cell_voltages_mv@) <= stack_max(ms),
        forall|i: int, j: int|
            0 <= i < ms.len() && 0 <= j < ms[i].cell_voltages_mv@.len() ==> stack_min(ms)
                <= #[trigger] ms[i].cell_voltages_mv@[j] as int <= stack_max(ms),
        forall|i: int| 0 <= i < ms.len() ==> #[trigger] module_spread(ms[i]) <= stack_max(ms) - stack_min(ms),
    decreases ms.len(),
{
    if ms.len() > 1 {
        let p = ms.drop_last();
        assert(all_have_cells(p)) by {
            assert forall|i: int| 0 <= i < p.len() implies (#[trigger] p[i]).cell_voltages_mv@.len() > 0 by {
                assert(p[i] == ms[i]);
            }
        }
        lemma_stack_covers_modules(p);
        assert forall|i: int| 0 <= i < ms.len() implies stack_min(ms) <= seq_min((#[trigger] ms[i]).cell_voltages_mv@)
            && seq_max(ms[i].cell_voltages_mv@) <= stack_max(ms) by {
            if i < ms.len() - 1 {
                assert(ms[i] == p[i]);
            }
        }
    }
    assert forall|i: int, j: int| 0 <= i < ms.len() && 0 <= j < ms[i].cell_voltages_mv@.len() implies stack_min(ms)
        <= #[trigger] ms[i].cell_voltages_mv@[j] as int <= stack_max(ms) by {
        lemma_seq_min_max(ms[i].cell_voltages_mv@);
    }
    assert forall|i: int| 0 <= i < ms.len() implies #[trigger] module_spread(ms[i]) <= stack_max(ms) - stack_min(ms) by {
        assert(stack_min(ms) <= seq_min(ms[i].cell_voltages_mv@));
    }
}

} // verus!
