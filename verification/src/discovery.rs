//! The MQTT topic layout and the Home Assistant discovery announcements:
//! which sensors exist, where their states are published, and the config
//! payload announced for each.
use vstd::prelude::*;
use crate::model::ModuleIdentity;
use crate::config::MqttConfig;
use crate::error::{AppError, AppFault};
use crate::text::{decimal, push_decimal, opt_view, opt_str_view, opt_string, copy_opt_string, str_equal};

verus! {

/// One sensor entity as announced to Home Assistant.
#[derive(Debug, Clone, Copy)]
pub struct SensorDefinition {
    pub component: &'static str,
    pub name: &'static str,
    pub unique_id_prefix: &'static str,
    pub state_key: &'static str,
    pub device_class: Option<&'static str>,
    pub unit_of_measurement: Option<&'static str>,
    pub state_class: Option<&'static str>,
    pub icon: Option<&'static str>,
    pub entity_category: Option<&'static str>,
    pub suggested_display_precision: Option<u8>,
}

/// The sensors of the stack as a whole.
pub open spec fn stack_sensors_table() -> Seq<SensorDefinition> {
    seq![
        SensorDefinition {
            component: "sensor",
            name: "Stack Disbalance",
            unique_id_prefix: "stack_disbalance",
            state_key: "stack_disbalance",
            device_class: Some("voltage"),
            unit_of_measurement: Some("V"),
            state_class: Some("measurement"),
            icon: Some("mdi:scale-unbalanced"),
            entity_category: None,
            suggested_display_precision: Some(3u8),
        },
        SensorDefinition {
            component: "sensor",
            name: "Max Battery Disbalance",
            unique_id_prefix: "max_battery_disbalance",
            state_key: "max_module_disbalance",
            device_class: Some("voltage"),
            unit_of_measurement: Some("V"),
            state_class: Some("measurement"),
            icon: Some("mdi:scale-unbalanced"),
            entity_category: None,
            suggested_display_precision: Some(3u8),
        },
        SensorDefinition {
            component: "sensor",
            name: "Max Disbalance ID",
            unique_id_prefix: "max_battery_disbalance_id",
            state_key: "max_module_id",
            device_class: None,
            unit_of_measurement: None,
            state_class: None,
            icon: Some("mdi:battery-alert"),
            entity_category: None,
            suggested_display_precision: None,
        },
    ]
}

pub fn stack_sensors() -> (res: Vec<SensorDefinition>)
    ensures
        res@ == stack_sensors_table(),
{
    vec![
        SensorDefinition {
            component: "sensor",
            name: "Stack Disbalance",
            unique_id_prefix: "stack_disbalance",
            state_key: "stack_disbalance",
            device_class: Some("voltage"),
            unit_of_measurement: Some("V"),
            state_class: Some("measurement"),
            icon: Some("mdi:scale-unbalanced"),
            entity_category: None,
            suggested_display_precision: Some(3u8),
        },
        SensorDefinition {
            component: "sensor",
            name: "Max Battery Disbalance",
            unique_id_prefix: "max_battery_disbalance",
            state_key: "max_module_disbalance",
            device_class: Some("voltage"),
            unit_of_measurement: Some("V"),
            state_class: Some("measurement"),
            icon: Some("mdi:scale-unbalanced"),
            entity_category: None,
            suggested_display_precision: Some(3u8),
        },
        SensorDefinition {
            component: "sensor",
            name: "Max Disbalance ID",
            unique_id_prefix: "max_battery_disbalance_id",
            state_key: "max_module_id",
            device_class: None,
            unit_of_measurement: None,
            state_class: None,
            icon: Some("mdi:battery-alert"),
            entity_category: None,
            suggested_display_precision: None,
        },
    ]
}

/// The per-module measurement sensors.
pub open spec fn module_sensors_table() -> Seq<SensorDefinition> {
    seq![
        SensorDefinition {
            component: "sensor",
            name: "SoC",
            unique_id_prefix: "battery_soc",
            state_key: "soc_percent",
            device_class: Some("battery"),
            unit_of_measurement: Some("%"),
            state_class: Some("measurement"),
            icon: None,
            entity_category: None,
            suggested_display_precision: Some(1u8),
        },
        SensorDefinition {
            component: "sensor",
            name: "Cell Disbalance",
            unique_id_prefix: "battery_disbalance",
            state_key: "disbalance",
            device_class: Some("voltage"),
            unit_of_measurement: Some("V"),
            state_class: Some("measurement"),
            icon: Some("mdi:scale-unbalanced"),
            entity_category: None,
            suggested_display_precision: Some(3u8),
        },
        SensorDefinition {
            component: "sensor",
            name: "Voltage",
            unique_id_prefix: "battery_voltage",
            state_key: "voltage",
            device_class: Some("voltage"),
            unit_of_measurement: Some("V"),
            state_class: Some("measurement"),
            icon: Some("mdi:gauge"),
            entity_category: None,
            suggested_display_precision: Some(3u8),
        },
        SensorDefinition {
            component: "sensor",
            name: "Current",
            unique_id_prefix: "battery_current",
            state_key: "current",
            device_class: Some("current"),
            unit_of_measurement: Some("A"),
            state_class: Some("measurement"),
            icon: Some("mdi:current-dc"),
            entity_category: None,
            suggested_display_precision: Some(3u8),
        },
        SensorDefinition {
            component: "sensor",
            name: "Power",
            unique_id_prefix: "battery_power",
            state_key: "power",
            device_class: Some("power"),
            unit_of_measurement: Some("W"),
            state_class: Some("measurement"),
            icon: Some("mdi:battery-charging"),
            entity_category: None,
            suggested_display_precision: Some(2u8),
        },
        SensorDefinition {
            component: "sensor",
            name: "Cycle",
            unique_id_prefix: "battery_cycle",
            state_key: "cycle",
            device_class: None,
            unit_of_measurement: None,
            state_class: Some("measurement"),
            icon: Some("mdi:battery-sync"),
            entity_category: None,
            suggested_display_precision: None,
        },
        SensorDefinition {
            component: "sensor",
            name: "Temperature",
            unique_id_prefix: "battery_temperature",
            state_key: "temperature",
            device_class: Some("temperature"),
            unit_of_measurement: Some("°C"),
            state_class: Some("measurement"),
            icon: None,
            entity_category: None,
            suggested_display_precision: Some(1u8),
        },
    ]
}

pub fn module_sensors() -> (res: Vec<SensorDefinition>)
    ensures
        res@ == module_sensors_table(),
{
    vec![
        SensorDefinition {
            component: "sensor",
            name: "SoC",
            unique_id_prefix: "battery_soc",
            state_key: "soc_percent",
            device_class: Some("battery"),
            unit_of_measurement: Some("%"),
            state_class: Some("measurement"),
            icon: None,
            entity_category: None,
            suggested_display_precision: Some(1u8),
        },
        SensorDefinition {
            component: "sensor",
            name: "Cell Disbalance",
            unique_id_prefix: "battery_disbalance",
            state_key: "disbalance",
            device_class: Some("voltage"),
            unit_of_measurement: Some("V"),
            state_class: Some("measurement"),
            icon: Some("mdi:scale-unbalanced"),
            entity_category: None,
            suggested_display_precision: Some(3u8),
        },
        SensorDefinition {
            component: "sensor",
            name: "Voltage",
            unique_id_prefix: "battery_voltage",
            state_key: "voltage",
            device_class: Some("voltage"),
            unit_of_measurement: Some("V"),
            state_class: Some("measurement"),
            icon: Some("mdi:gauge"),
            entity_category: None,
            suggested_display_precision: Some(3u8),
        },
        SensorDefinition {
            component: "sensor",
            name: "Current",
            unique_id_prefix: "battery_current",
            state_key: "current",
            device_class: Some("current"),
            unit_of_measurement: Some("A"),
            state_class: Some("measurement"),
            icon: Some("mdi:current-dc"),
            entity_category: None,
            suggested_display_precision: Some(3u8),
        },
        SensorDefinition {
            component: "sensor",
            name: "Power",
            unique_id_prefix: "battery_power",
            state_key: "power",
            device_class: Some("power"),
            unit_of_measurement: Some("W"),
            state_class: Some("measurement"),
            icon: Some("mdi:battery-charging"),
            entity_category: None,
            suggested_display_precision: Some(2u8),
        },
        SensorDefinition {
            component: "sensor",
            name: "Cycle",
            unique_id_prefix: "battery_cycle",
            state_key: "cycle",
            device_class: None,
            unit_of_measurement: None,
            state_class: Some("measurement"),
            icon: Some("mdi:battery-sync"),
            entity_category: None,
            suggested_display_precision: None,
        },
        SensorDefinition {
            component: "sensor",
            name: "Temperature",
            unique_id_prefix: "battery_temperature",
            state_key: "temperature",
            device_class: Some("temperature"),
            unit_of_measurement: Some("°C"),
            state_class: Some("measurement"),
            icon: None,
            entity_category: None,
            suggested_display_precision: Some(1u8),
        },
    ]
}

/// The per-module limit sensors (published once, retained).
pub open spec fn system_parameter_sensors_table() -> Seq<SensorDefinition> {
    seq![
        SensorDefinition {
            component: "sensor",
            name: "Cell High Voltage Limit",
            unique_id_prefix: "battery_cell_high_voltage_limit",
            state_key: "cell_high_voltage_limit",
            device_class: Some("voltage"),
            unit_of_measurement: Some("V"),
            state_class: None,
            icon: Some("mdi:gauge"),
            entity_category: Some("diagnostic"),
            suggested_display_precision: Some(3u8),
        },
        SensorDefinition {
            component: "sensor",
            name: "Cell Low Voltage Limit",
            unique_id_prefix: "battery_cell_low_voltage_limit",
            state_key: "cell_low_voltage_limit",
            device_class: Some("voltage"),
            unit_of_measurement: Some("V"),
            state_class: None,
            icon: Some("mdi:gauge"),
            entity_category: Some("diagnostic"),
            suggested_display_precision: Some(3u8),
        },
        SensorDefinition {
            component: "sensor",
            name: "Cell Under Voltage Limit",
            unique_id_prefix: "battery_cell_under_voltage_limit",
            state_key: "cell_under_voltage_limit",
            device_class: Some("voltage"),
            unit_of_measurement: Some("V"),
            state_class: None,
            icon: Some("mdi:gauge"),
            entity_category: Some("diagnostic"),
            suggested_display_precision: Some(3u8),
        },
        SensorDefinition {
            component: "sensor",
            name: "Charge High Temperature Limit",
            unique_id_prefix: "battery_charge_high_temperature_limit",
            state_key: "charge_high_temperature_limit",
            device_class: Some("temperature"),
            unit_of_measurement: Some("°C"),
            state_class: None,
            icon: Some("mdi:thermometer-high"),
            entity_category: Some("diagnostic"),
            suggested_display_precision: Some(1u8),
        },
        SensorDefinition {
            component: "sensor",
            name: "Charge Low Temperature Limit",
            unique_id_prefix: "battery_charge_low_temperature_limit",
            state_key: "charge_low_temperature_limit",
            device_class: Some("temperature"),
            unit_of_measurement: Some("°C"),
            state_class: None,
            icon: Some("mdi:thermometer-low"),
            entity_category: Some("diagnostic"),
            suggested_display_precision: Some(1u8),
        },
        SensorDefinition {
            component: "sensor",
            name: "Charge Current Limit",
            unique_id_prefix: "battery_charge_current_limit",
            state_key: "charge_current_limit",
            device_class: Some("current"),
            unit_of_measurement: Some("A"),
            state_class: None,
            icon: Some("mdi:current-dc"),
            entity_category: Some("diagnostic"),
            suggested_display_precision: Some(1u8),
        },
        SensorDefinition {
            component: "sensor",
            name: "Module High Voltage Limit",
            unique_id_prefix: "battery_module_high_voltage_limit",
            state_key: "module_high_voltage_limit",
            device_class: Some("voltage"),
            unit_of_measurement: Some("V"),
            state_class: None,
            icon: Some("mdi:gauge"),
            entity_category: Some("diagnostic"),
            suggested_display_precision: Some(3u8),
        },
        SensorDefinition {
            component: "sensor",
            name: "Module Low Voltage Limit",
            unique_id_prefix: "battery_module_low_voltage_limit",
            state_key: "module_low_voltage_limit",
            device_class: Some("voltage"),
            unit_of_measurement: Some("V"),
            state_class: None,
            icon: Some("mdi:gauge"),
            entity_category: Some("diagnostic"),
            suggested_display_precision: Some(3u8),
        },
        SensorDefinition {
            component: "sensor",
            name: "Module Under Voltage Limit",
            unique_id_prefix: "battery_module_under_voltage_limit",
            state_key: "module_under_voltage_limit",
            device_class: Some("voltage"),
            unit_of_measurement: Some("V"),
            state_class: None,
            icon: Some("mdi:gauge"),
            entity_category: Some("diagnostic"),
            suggested_display_precision: Some(3u8),
        },
        SensorDefinition {
            component: "sensor",
            name: "Discharge High Temperature Limit",
            unique_id_prefix: "battery_discharge_high_temperature_limit",
            state_key: "discharge_high_temperature_limit",
            device_class: Some("temperature"),
            unit_of_measurement: Some("°C"),
            state_class: None,
            icon: Some("mdi:thermometer-high"),
            entity_category: Some("diagnostic"),
            suggested_display_precision: Some(1u8),
        },
        SensorDefinition {
            component: "sensor",
            name: "Discharge Low Temperature Limit",
            unique_id_prefix: "battery_discharge_low_temperature_limit",
            state_key: "discharge_low_temperature_limit",
            device_class: Some("temperature"),
            unit_of_measurement: Some("°C"),
            state_class: None,
            icon: Some("mdi:thermometer-low"),
            entity_category: Some("diagnostic"),
            suggested_display_precision: Some(1u8),
        },
        SensorDefinition {
            component: "sensor",
            name: "Discharge Current Limit",
            unique_id_prefix: "battery_discharge_current_limit",
            state_key: "discharge_current_limit",
            device_class: Some("current"),
            unit_of_measurement: Some("A"),
            state_class: None,
            icon: Some("mdi:current-dc"),
            entity_category: Some("diagnostic"),
            suggested_display_precision: Some(1u8),
        },
    ]
}

pub fn system_parameter_sensors() -> (res: Vec<SensorDefinition>)
    ensures
        res@ == system_parameter_sensors_table(),
{
    vec![
        SensorDefinition {
            component: "sensor",
            name: "Cell High Voltage Limit",
            unique_id_prefix: "battery_cell_high_voltage_limit",
            state_key: "cell_high_voltage_limit",
            device_class: Some("voltage"),
            unit_of_measurement: Some("V"),
            state_class: None,
            icon: Some("mdi:gauge"),
            entity_category: Some("diagnostic"),
            suggested_display_precision: Some(3u8),
        },
        SensorDefinition {
            component: "sensor",
            name: "Cell Low Voltage Limit",
            unique_id_prefix: "battery_cell_low_voltage_limit",
            state_key: "cell_low_voltage_limit",
            device_class: Some("voltage"),
            unit_of_measurement: Some("V"),
            state_class: None,
            icon: Some("mdi:gauge"),
            entity_category: Some("diagnostic"),
            suggested_display_precision: Some(3u8),
        },
        SensorDefinition {
            component: "sensor",
            name: "Cell Under Voltage Limit",
            unique_id_prefix: "battery_cell_under_voltage_limit",
            state_key: "cell_under_voltage_limit",
            device_class: Some("voltage"),
            unit_of_measurement: Some("V"),
            state_class: None,
            icon: Some("mdi:gauge"),
            entity_category: Some("diagnostic"),
            suggested_display_precision: Some(3u8),
        },
        SensorDefinition {
            component: "sensor",
            name: "Charge High Temperature Limit",
            unique_id_prefix: "battery_charge_high_temperature_limit",
            state_key: "charge_high_temperature_limit",
            device_class: Some("temperature"),
            unit_of_measurement: Some("°C"),
            state_class: None,
            icon: Some("mdi:thermometer-high"),
            entity_category: Some("diagnostic"),
            suggested_display_precision: Some(1u8),
        },
        SensorDefinition {
            component: "sensor",
            name: "Charge Low Temperature Limit",
            unique_id_prefix: "battery_charge_low_temperature_limit",
            state_key: "charge_low_temperature_limit",
            device_class: Some("temperature"),
            unit_of_measurement: Some("°C"),
            state_class: None,
            icon: Some("mdi:thermometer-low"),
            entity_category: Some("diagnostic"),
            suggested_display_precision: Some(1u8),
        },
        SensorDefinition {
            component: "sensor",
            name: "Charge Current Limit",
            unique_id_prefix: "battery_charge_current_limit",
            state_key: "charge_current_limit",
            device_class: Some("current"),
            unit_of_measurement: Some("A"),
            state_class: None,
            icon: Some("mdi:current-dc"),
            entity_category: Some("diagnostic"),
            suggested_display_precision: Some(1u8),
        },
        SensorDefinition {
            component: "sensor",
            name: "Module High Voltage Limit",
            unique_id_prefix: "battery_module_high_voltage_limit",
            state_key: "module_high_voltage_limit",
            device_class: Some("voltage"),
            unit_of_measurement: Some("V"),
            state_class: None,
            icon: Some("mdi:gauge"),
            entity_category: Some("diagnostic"),
            suggested_display_precision: Some(3u8),
        },
        SensorDefinition {
            component: "sensor",
            name: "Module Low Voltage Limit",
            unique_id_prefix: "battery_module_low_voltage_limit",
            state_key: "module_low_voltage_limit",
            device_class: Some("voltage"),
            unit_of_measurement: Some("V"),
            state_class: None,
            icon: Some("mdi:gauge"),
            entity_category: Some("diagnostic"),
            suggested_display_precision: Some(3u8),
        },
        SensorDefinition {
            component: "sensor",
            name: "Module Under Voltage Limit",
            unique_id_prefix: "battery_module_under_voltage_limit",
            state_key: "module_under_voltage_limit",
            device_class: Some("voltage"),
            unit_of_measurement: Some("V"),
            state_class: None,
            icon: Some("mdi:gauge"),
            entity_category: Some("diagnostic"),
            suggested_display_precision: Some(3u8),
        },
        SensorDefinition {
            component: "sensor",
            name: "Discharge High Temperature Limit",
            unique_id_prefix: "battery_discharge_high_temperature_limit",
            state_key: "discharge_high_temperature_limit",
            device_class: Some("temperature"),
            unit_of_measurement: Some("°C"),
            state_class: None,
            icon: Some("mdi:thermometer-high"),
            entity_category: Some("diagnostic"),
            suggested_display_precision: Some(1u8),
        },
        SensorDefinition {
            component: "sensor",
            name: "Discharge Low Temperature Limit",
            unique_id_prefix: "battery_discharge_low_temperature_limit",
            state_key: "discharge_low_temperature_limit",
            device_class: Some("temperature"),
            unit_of_measurement: Some("°C"),
            state_class: None,
            icon: Some("mdi:thermometer-low"),
            entity_category: Some("diagnostic"),
            suggested_display_precision: Some(1u8),
        },
        SensorDefinition {
            component: "sensor",
            name: "Discharge Current Limit",
            unique_id_prefix: "battery_discharge_current_limit",
            state_key: "discharge_current_limit",
            device_class: Some("current"),
            unit_of_measurement: Some("A"),
            state_class: None,
            icon: Some("mdi:current-dc"),
            entity_category: Some("diagnostic"),
            suggested_display_precision: Some(1u8),
        },
    ]
}

/// The per-module charge and discharge limits the management asks for.
pub open spec fn management_value_sensors_table() -> Seq<SensorDefinition> {
    seq![
        SensorDefinition {
            component: "sensor",
            name: "Charge Voltage Limit",
            unique_id_prefix: "battery_management_charge_voltage_limit",
            state_key: "charge_voltage_limit",
            device_class: Some("voltage"),
            unit_of_measurement: Some("V"),
            state_class: None,
            icon: Some("mdi:gauge"),
            entity_category: Some("diagnostic"),
            suggested_display_precision: Some(3u8),
        },
        SensorDefinition {
            component: "sensor",
            name: "Discharge Voltage Limit",
            unique_id_prefix: "battery_management_discharge_voltage_limit",
            state_key: "discharge_voltage_limit",
            device_class: Some("voltage"),
            unit_of_measurement: Some("V"),
            state_class: None,
            icon: Some("mdi:gauge"),
            entity_category: Some("diagnostic"),
            suggested_display_precision: Some(3u8),
        },
        SensorDefinition {
            component: "sensor",
            name: "Charge Current Limit",
            unique_id_prefix: "battery_management_charge_current_limit",
            state_key: "charge_current_limit",
            device_class: Some("current"),
            unit_of_measurement: Some("A"),
            state_class: None,
            icon: Some("mdi:current-dc"),
            entity_category: Some("diagnostic"),
            suggested_display_precision: Some(1u8),
        },
        SensorDefinition {
            component: "sensor",
            name: "Discharge Current Limit",
            unique_id_prefix: "battery_management_discharge_current_limit",
            state_key: "discharge_current_limit",
            device_class: Some("current"),
            unit_of_measurement: Some("A"),
            state_class: None,
            icon: Some("mdi:current-dc"),
            entity_category: Some("diagnostic"),
            suggested_display_precision: Some(1u8),
        },
    ]
}

pub fn management_value_sensors() -> (res: Vec<SensorDefinition>)
    ensures
        res@ == management_value_sensors_table(),
{
    vec![
        SensorDefinition {
            component: "sensor",
            name: "Charge Voltage Limit",
            unique_id_prefix: "battery_management_charge_voltage_limit",
            state_key: "charge_voltage_limit",
            device_class: Some("voltage"),
            unit_of_measurement: Some("V"),
            state_class: None,
            icon: Some("mdi:gauge"),
            entity_category: Some("diagnostic"),
            suggested_display_precision: Some(3u8),
        },
        SensorDefinition {
            component: "sensor",
            name: "Discharge Voltage Limit",
            unique_id_prefix: "battery_management_discharge_voltage_limit",
            state_key: "discharge_voltage_limit",
            device_class: Some("voltage"),
            unit_of_measurement: Some("V"),
            state_class: None,
            icon: Some("mdi:gauge"),
            entity_category: Some("diagnostic"),
            suggested_display_precision: Some(3u8),
        },
        SensorDefinition {
            component: "sensor",
            name: "Charge Current Limit",
            unique_id_prefix: "battery_management_charge_current_limit",
            state_key: "charge_current_limit",
            device_class: Some("current"),
            unit_of_measurement: Some("A"),
            state_class: None,
            icon: Some("mdi:current-dc"),
            entity_category: Some("diagnostic"),
            suggested_display_precision: Some(1u8),
        },
        SensorDefinition {
            component: "sensor",
            name: "Discharge Current Limit",
            unique_id_prefix: "battery_management_discharge_current_limit",
            state_key: "discharge_current_limit",
            device_class: Some("current"),
            unit_of_measurement: Some("A"),
            state_class: None,
            icon: Some("mdi:current-dc"),
            entity_category: Some("diagnostic"),
            suggested_display_precision: Some(1u8),
        },
    ]
}

/// The per-module management status flags.
pub open spec fn management_flag_sensors_table() -> Seq<SensorDefinition> {
    seq![
        SensorDefinition {
            component: "binary_sensor",
            name: "Charge Enable",
            unique_id_prefix: "battery_management_charge_enable",
            state_key: "charge_enable",
            device_class: None,
            unit_of_measurement: None,
            state_class: None,
            icon: Some("mdi:battery-charging"),
            entity_category: Some("diagnostic"),
            suggested_display_precision: None,
        },
        SensorDefinition {
            component: "binary_sensor",
            name: "Discharge Enable",
            unique_id_prefix: "battery_management_discharge_enable",
            state_key: "discharge_enable",
            device_class: None,
            unit_of_measurement: None,
            state_class: None,
            icon: Some("mdi:battery-arrow-down"),
            entity_category: Some("diagnostic"),
            suggested_display_precision: None,
        },
        SensorDefinition {
            component: "binary_sensor",
            name: "Charge Immediately 2",
            unique_id_prefix: "battery_management_charge_immediately_2",
            state_key: "charge_immediately_2",
            device_class: None,
            unit_of_measurement: None,
            state_class: None,
            icon: Some("mdi:flash"),
            entity_category: Some("diagnostic"),
            suggested_display_precision: None,
        },
        SensorDefinition {
            component: "binary_sensor",
            name: "Charge Immediately 1",
            unique_id_prefix: "battery_management_charge_immediately_1",
            state_key: "charge_immediately_1",
            device_class: None,
            unit_of_measurement: None,
            state_class: None,
            icon: Some("mdi:flash"),
            entity_category: Some("diagnostic"),
            suggested_display_precision: None,
        },
        SensorDefinition {
            component: "binary_sensor",
            name: "Full Charge Request",
            unique_id_prefix: "battery_management_full_charge_request",
            state_key: "full_charge_request",
            device_class: None,
            unit_of_measurement: None,
            state_class: None,
            icon: Some("mdi:battery-plus"),
            entity_category: Some("diagnostic"),
            suggested_display_precision: None,
        },
        SensorDefinition {
            component: "binary_sensor",
            name: "Should Charge",
            unique_id_prefix: "battery_management_should_charge",
            state_key: "should_charge",
            device_class: None,
            unit_of_measurement: None,
            state_class: None,
            icon: Some("mdi:battery-heart-variant"),
            entity_category: Some("diagnostic"),
            suggested_display_precision: None,
        },
    ]
}

pub fn management_flag_sensors() -> (res: Vec<SensorDefinition>)
    ensures
        res@ == management_flag_sensors_table(),
{
    vec![
        SensorDefinition {
            component: "binary_sensor",
            name: "Charge Enable",
            unique_id_prefix: "battery_management_charge_enable",
            state_key: "charge_enable",
            device_class: None,
            unit_of_measurement: None,
            state_class: None,
            icon: Some("mdi:battery-charging"),
            entity_category: Some("diagnostic"),
            suggested_display_precision: None,
        },
        SensorDefinition {
            component: "binary_sensor",
            name: "Discharge Enable",
            unique_id_prefix: "battery_management_discharge_enable",
            state_key: "discharge_enable",
            device_class: None,
            unit_of_measurement: None,
            state_class: None,
            icon: Some("mdi:battery-arrow-down"),
            entity_category: Some("diagnostic"),
            suggested_display_precision: None,
        },
        SensorDefinition {
            component: "binary_sensor",
            name: "Charge Immediately 2",
            unique_id_prefix: "battery_management_charge_immediately_2",
            state_key: "charge_immediately_2",
            device_class: None,
            unit_of_measurement: None,
            state_class: None,
            icon: Some("mdi:flash"),
            entity_category: Some("diagnostic"),
            suggested_display_precision: None,
        },
        SensorDefinition {
            component: "binary_sensor",
            name: "Charge Immediately 1",
            unique_id_prefix: "battery_management_charge_immediately_1",
            state_key: "charge_immediately_1",
            device_class: None,
            unit_of_measurement: None,
            state_class: None,
            icon: Some("mdi:flash"),
            entity_category: Some("diagnostic"),
            suggested_display_precision: None,
        },
        SensorDefinition {
            component: "binary_sensor",
            name: "Full Charge Request",
            unique_id_prefix: "battery_management_full_charge_request",
            state_key: "full_charge_request",
            device_class: None,
            unit_of_measurement: None,
            state_class: None,
            icon: Some("mdi:battery-plus"),
            entity_category: Some("diagnostic"),
            suggested_display_precision: None,
        },
        SensorDefinition {
            component: "binary_sensor",
            name: "Should Charge",
            unique_id_prefix: "battery_management_should_charge",
            state_key: "should_charge",
            device_class: None,
            unit_of_measurement: None,
            state_class: None,
            icon: Some("mdi:battery-heart-variant"),
            entity_category: Some("diagnostic"),
            suggested_display_precision: None,
        },
    ]
}

/// The keys of the JSON state published for the stack state.
pub open spec fn stack_state_key_table() -> Seq<&'static str> {
    seq!["stack_disbalance", "max_module_disbalance", "max_module_id"]
}

pub fn stack_state_keys() -> (res: Vec<&'static str>)
    ensures
        res@ == stack_state_key_table(),
{
    vec!["stack_disbalance", "max_module_disbalance", "max_module_id"]
}

/// The keys of the JSON state published for a module state, besides its cell voltages.
pub open spec fn module_state_key_table() -> Seq<&'static str> {
    seq!["address", "voltage", "current", "power", "cycle", "soc_ratio", "soc_percent", "temperature", "grouped_temperatures", "remaining_capacity", "total_capacity", "disbalance"]
}

pub fn module_state_keys() -> (res: Vec<&'static str>)
    ensures
        res@ == module_state_key_table(),
{
    vec!["address", "voltage", "current", "power", "cycle", "soc_ratio", "soc_percent", "temperature", "grouped_temperatures", "remaining_capacity", "total_capacity", "disbalance"]
}

/// The keys of the JSON state published for a module's system parameters.
pub open spec fn system_parameter_key_table() -> Seq<&'static str> {
    seq!["cell_high_voltage_limit", "cell_low_voltage_limit", "cell_under_voltage_limit", "charge_high_temperature_limit", "charge_low_temperature_limit", "charge_current_limit", "module_high_voltage_limit", "module_low_voltage_limit", "module_under_voltage_limit", "discharge_high_temperature_limit", "discharge_low_temperature_limit", "discharge_current_limit"]
}

pub fn system_parameter_keys() -> (res: Vec<&'static str>)
    ensures
        res@ == system_parameter_key_table(),
{
    vec!["cell_high_voltage_limit", "cell_low_voltage_limit", "cell_under_voltage_limit", "charge_high_temperature_limit", "charge_low_temperature_limit", "charge_current_limit", "module_high_voltage_limit", "module_low_voltage_limit", "module_under_voltage_limit", "discharge_high_temperature_limit", "discharge_low_temperature_limit", "discharge_current_limit"]
}

/// The keys of the JSON state published for a module's management info.
pub open spec fn management_info_key_table() -> Seq<&'static str> {
    seq!["charge_voltage_limit", "discharge_voltage_limit", "charge_current_limit", "discharge_current_limit", "charge_enable", "discharge_enable", "charge_immediately_2", "charge_immediately_1", "full_charge_request", "should_charge"]
}

pub fn management_info_keys() -> (res: Vec<&'static str>)
    ensures
        res@ == management_info_key_table(),
{
    vec!["charge_voltage_limit", "discharge_voltage_limit", "charge_current_limit", "discharge_current_limit", "charge_enable", "discharge_enable", "charge_immediately_2", "charge_immediately_1", "full_charge_request", "should_charge"]
}

/// The key of the voltage of cell `cell` in a module state.
pub open spec fn cell_voltage_key(cell: nat) -> Seq<char> {
    "cell_"@ + decimal(cell) + "_voltage"@
}

pub fn cell_voltage_state_key(cell: u64) -> (res: String)
    ensures
        res@ == cell_voltage_key(cell as nat),
{
    let mut key = String::from_str("cell_");
    push_decimal(&mut key, cell);
    key.append("_voltage");
    key
}

/// Every sensor announced for a state topic reads a key that the state
/// published on that topic holds: the stack sensors the stack state, the
/// module sensors the module state, the system parameter sensors the
/// system parameters, and the management sensors the management info.
pub proof fn lemma_announced_keys_are_published()
    ensures
        forall|i: int|
            0 <= i < stack_sensors_table().len() ==> stack_state_key_table().contains(#[trigger] stack_sensors_table()[i].state_key),
        forall|i: int|
            0 <= i < module_sensors_table().len() ==> module_state_key_table().contains(#[trigger] module_sensors_table()[i].state_key),
        forall|i: int|
            0 <= i < system_parameter_sensors_table().len() ==> system_parameter_key_table().contains(#[trigger] system_parameter_sensors_table()[i].state_key),
        forall|i: int|
            0 <= i < management_value_sensors_table().len() ==> management_info_key_table().contains(#[trigger] management_value_sensors_table()[i].state_key),
        forall|i: int|
            0 <= i < management_flag_sensors_table().len() ==> management_info_key_table().contains(#[trigger] management_flag_sensors_table()[i].state_key),
{
    assert forall|i: int| 0 <= i < stack_sensors_table().len() implies stack_state_key_table().contains(#[trigger] stack_sensors_table()[i].state_key) by {
        if i == 0 {
            assert(stack_state_key_table()[0] == stack_sensors_table()[0].state_key);
        } else if i == 1 {
            assert(stack_state_key_table()[1] == stack_sensors_table()[1].state_key);
        } else if i == 2 {
            assert(stack_state_key_table()[2] == stack_sensors_table()[2].state_key);
        }
    }
    assert forall|i: int| 0 <= i < module_sensors_table().len() implies module_state_key_table().contains(#[trigger] module_sensors_table()[i].state_key) by {
        if i == 0 {
            assert(module_state_key_table()[6] == module_sensors_table()[0].state_key);
        } else if i == 1 {
            assert(module_state_key_table()[11] == module_sensors_table()[1].state_key);
        } else if i == 2 {
            assert(module_state_key_table()[1] == module_sensors_table()[2].state_key);
        } else if i == 3 {
            assert(module_state_key_table()[2] == module_sensors_table()[3].state_key);
        } else if i == 4 {
            assert(module_state_key_table()[3] == module_sensors_table()[4].state_key);
        } else if i == 5 {
            assert(module_state_key_table()[4] == module_sensors_table()[5].state_key);
        } else if i == 6 {
            assert(module_state_key_table()[7] == module_sensors_table()[6].state_key);
        }
    }
    assert forall|i: int| 0 <= i < system_parameter_sensors_table().len() implies system_parameter_key_table().contains(#[trigger] system_parameter_sensors_table()[i].state_key) by {
        if i == 0 {
            assert(system_parameter_key_table()[0] == system_parameter_sensors_table()[0].state_key);
        } else if i == 1 {
            assert(system_parameter_key_table()[1] == system_parameter_sensors_table()[1].state_key);
        } else if i == 2 {
            assert(system_parameter_key_table()[2] == system_parameter_sensors_table()[2].state_key);
        } else if i == 3 {
            assert(system_parameter_key_table()[3] == system_parameter_sensors_table()[3].state_key);
        } else if i == 4 {
            assert(system_parameter_key_table()[4] == system_parameter_sensors_table()[4].state_key);
        } else if i == 5 {
            assert(system_parameter_key_table()[5] == system_parameter_sensors_table()[5].state_key);
        } else if i == 6 {
            assert(system_parameter_key_table()[6] == system_parameter_sensors_table()[6].state_key);
        } else if i == 7 {
            assert(system_parameter_key_table()[7] == system_parameter_sensors_table()[7].state_key);
        } else if i == 8 {
            assert(system_parameter_key_table()[8] == system_parameter_sensors_table()[8].state_key);
        } else if i == 9 {
            assert(system_parameter_key_table()[9] == system_parameter_sensors_table()[9].state_key);
        } else if i == 10 {
            assert(system_parameter_key_table()[10] == system_parameter_sensors_table()[10].state_key);
        } else if i == 11 {
            assert(system_parameter_key_table()[11] == system_parameter_sensors_table()[11].state_key);
        }
    }
    assert forall|i: int| 0 <= i < management_value_sensors_table().len() implies management_info_key_table().contains(#[trigger] management_value_sensors_table()[i].state_key) by {
        if i == 0 {
            assert(management_info_key_table()[0] == management_value_sensors_table()[0].state_key);
        } else if i == 1 {
            assert(management_info_key_table()[1] == management_value_sensors_table()[1].state_key);
        } else if i == 2 {
            assert(management_info_key_table()[2] == management_value_sensors_table()[2].state_key);
        } else if i == 3 {
            assert(management_info_key_table()[3] == management_value_sensors_table()[3].state_key);
        }
    }
    assert forall|i: int| 0 <= i < management_flag_sensors_table().len() implies management_info_key_table().contains(#[trigger] management_flag_sensors_table()[i].state_key) by {
        if i == 0 {
            assert(management_info_key_table()[4] == management_flag_sensors_table()[0].state_key);
        } else if i == 1 {
            assert(management_info_key_table()[5] == management_flag_sensors_table()[1].state_key);
        } else if i == 2 {
            assert(management_info_key_table()[6] == management_flag_sensors_table()[2].state_key);
        } else if i == 3 {
            assert(management_info_key_table()[7] == management_flag_sensors_table()[3].state_key);
        } else if i == 4 {
            assert(management_info_key_table()[8] == management_flag_sensors_table()[4].state_key);
        } else if i == 5 {
            assert(management_info_key_table()[9] == management_flag_sensors_table()[5].state_key);
        }
    }
}



/// The device an entity belongs to. Absent fields are left out of the
/// announcement.
#[derive(Debug, Clone)]
pub struct DeviceInfo {
    pub name: String,
    pub identifiers: Vec<String>,
    pub manufacturer: Option<String>,
    pub model: Option<String>,
    pub sw_version: Option<String>,
}

pub struct DeviceView {
    pub name: Seq<char>,
    pub identifiers: Seq<Seq<char>>,
    pub manufacturer: Option<Seq<char>>,
    pub model: Option<Seq<char>>,
    pub sw_version: Option<Seq<char>>,
}

impl View for DeviceInfo {
    type V = DeviceView;

    open spec fn view(&self) -> DeviceView {
        DeviceView {
            name: self.name@,
            identifiers: self.identifiers@.map_values(|s: String| s@),
            manufacturer: opt_view(self.manufacturer),
            model: opt_view(self.model),
            sw_version: opt_view(self.sw_version),
        }
    }
}

/// The config payload of one entity; absent fields are left out.
#[derive(Debug, Clone)]
pub struct DiscoveryPayload {
    pub name: String,
    pub unique_id: String,
    pub state_topic: String,
    pub value_template: String,
    pub availability_topic: String,
    pub payload_available: String,
    pub payload_not_available: String,
    pub device: DeviceInfo,
    pub device_class: Option<String>,
    pub unit_of_measurement: Option<String>,
    pub state_class: Option<String>,
    pub icon: Option<String>,
    pub entity_category: Option<String>,
    pub payload_on: Option<String>,
    pub payload_off: Option<String>,
    pub suggested_display_precision: Option<u8>,
}

pub struct PayloadView {
    pub name: Seq<char>,
    pub unique_id: Seq<char>,
    pub state_topic: Seq<char>,
    pub value_template: Seq<char>,
    pub availability_topic: Seq<char>,
    pub payload_available: Seq<char>,
    pub payload_not_available: Seq<char>,
    pub device: DeviceView,
    pub device_class: Option<Seq<char>>,
    pub unit_of_measurement: Option<Seq<char>>,
    pub state_class: Option<Seq<char>>,
    pub icon: Option<Seq<char>>,
    pub entity_category: Option<Seq<char>>,
    pub payload_on: Option<Seq<char>>,
    pub payload_off: Option<Seq<char>>,
    pub suggested_display_precision: Option<u8>,
}

impl View for DiscoveryPayload {
    type V = PayloadView;

    open spec fn view(&self) -> PayloadView {
        PayloadView {
            name: self.name@,
            unique_id: self.unique_id@,
            state_topic: self.state_topic@,
            value_template: self.value_template@,
            availability_topic: self.availability_topic@,
            payload_available: self.payload_available@,
            payload_not_available: self.payload_not_available@,
            device: self.device@,
            device_class: opt_view(self.device_class),
            unit_of_measurement: opt_view(self.unit_of_measurement),
            state_class: opt_view(self.state_class),
            icon: opt_view(self.icon),
            entity_category: opt_view(self.entity_category),
            payload_on: opt_view(self.payload_on),
            payload_off: opt_view(self.payload_off),
            suggested_display_precision: self.suggested_display_precision,
        }
    }
}

/// The template that picks `state_key` out of the JSON state.
pub open spec fn value_template_text(state_key: Seq<char>) -> Seq<char> {
    "{{ value_json."@ + state_key + " }}"@
}

/// The config payload announced for one entity. Binary sensors say that
/// their states are "true" and "false".
pub open spec fn payload_spec(
    component: Seq<char>,
    name: Seq<char>,
    unique_id: Seq<char>,
    state_topic: Seq<char>,
    state_key: Seq<char>,
    device: DeviceView,
    availability_topic: Seq<char>,
    device_class: Option<Seq<char>>,
    unit_of_measurement: Option<Seq<char>>,
    state_class: Option<Seq<char>>,
    icon: Option<Seq<char>>,
    entity_category: Option<Seq<char>>,
    suggested_display_precision: Option<u8>,
) -> PayloadView {
    let binary = component == "binary_sensor"@;
    PayloadView {
        name,
        unique_id,
        state_topic,
        value_template: value_template_text(state_key),
        availability_topic,
        payload_available: "online"@,
        payload_not_available: "offline"@,
        device,
        device_class,
        unit_of_measurement,
        state_class,
        icon,
        entity_category,
        payload_on: if binary { Some("true"@) } else { None },
        payload_off: if binary { Some("false"@) } else { None },
        suggested_display_precision,
    }
}

fn copy_strings(v: &Vec<String>) -> (res: Vec<String>)
    ensures
        res@.map_values(|s: String| s@) == v@.map_values(|s: String| s@),
{
    let mut res: Vec<String> = Vec::new();
    let mut i: usize = 0;
    while i < v.len()
        invariant
            i <= v@.len(),
            res@.len() == i,
            forall|j: int| 0 <= j < i ==> #[trigger] res@[j] == v@[j],
        decreases v@.len() - i,
    {
        res.push(v[i].clone());
        i = i + 1;
    }
    assert(res@ =~= v@);
    res
}

/// A copy of a device description.
pub fn copy_device(device: &DeviceInfo) -> (res: DeviceInfo)
    ensures
        res@ == device@,
{
    DeviceInfo {
        name: device.name.clone(),
        identifiers: copy_strings(&device.identifiers),
        manufacturer: copy_opt_string(&device.manufacturer),
        model: copy_opt_string(&device.model),
        sw_version: copy_opt_string(&device.sw_version),
    }
}

/// The config payload announced for one entity.
pub fn discovery_payload(
    component: &str,
    name: &str,
    unique_id: &str,
    state_topic: &str,
    state_key: &str,
    device: &DeviceInfo,
    availability_topic: &str,
    device_class: Option<&str>,
    unit_of_measurement: Option<&str>,
    state_class: Option<&str>,
    icon: Option<&str>,
    entity_category: Option<&str>,
    suggested_display_precision: Option<u8>,
) -> (res: DiscoveryPayload)
    ensures
        res@ == payload_spec(
            component@,
            name@,
            unique_id@,
            state_topic@,
            state_key@,
            device@,
            availability_topic@,
            opt_str_view(device_class),
            opt_str_view(unit_of_measurement),
            opt_str_view(state_class),
            opt_str_view(icon),
            opt_str_view(entity_category),
            suggested_display_precision,
        ),
{
    let mut value_template = String::from_str("{{ value_json.");
    value_template.append(state_key);
    value_template.append(" }}");
    let binary = str_equal(component, "binary_sensor");
    DiscoveryPayload {
        name: String::from_str(name),
        unique_id: String::from_str(unique_id),
        state_topic: String::from_str(state_topic),
        value_template,
        availability_topic: String::from_str(availability_topic),
        payload_available: String::from_str("online"),
        payload_not_available: String::from_str("offline"),
        device: copy_device(device),
        device_class: opt_string(device_class),
        unit_of_measurement: opt_string(unit_of_measurement),
        state_class: opt_string(state_class),
        icon: opt_string(icon),
        entity_category: opt_string(entity_category),
        payload_on: if binary { Some(String::from_str("true")) } else { None },
        payload_off: if binary { Some(String::from_str("false")) } else { None },
        suggested_display_precision,
    }
}

/// Where the adapter publishes: state topics under the topic prefix,
/// announcements under the discovery prefix.
#[derive(Debug, Clone)]
pub struct TopicLayout {
    pub discovery_prefix: String,
    pub topic_prefix: String,
}

pub open spec fn availability_topic_of(topic_prefix: Seq<char>) -> Seq<char> {
    topic_prefix + "/status"@
}

pub open spec fn stack_state_topic_of(topic_prefix: Seq<char>) -> Seq<char> {
    topic_prefix + "/stack/state"@
}

pub open spec fn module_topic_of(topic_prefix: Seq<char>, address: u8, suffix: Seq<char>) -> Seq<char> {
    topic_prefix + "/module/"@ + decimal(address as nat) + suffix
}

pub open spec fn discovery_topic_of(discovery_prefix: Seq<char>, component: Seq<char>, unique_id: Seq<char>) -> Seq<char> {
    discovery_prefix + "/"@ + component + "/"@ + unique_id + "/config"@
}

pub open spec fn stack_device_spec() -> DeviceView {
    DeviceView {
        name: "Pylontech Battery Stack"@,
        identifiers: seq!["pylontech_battery_stack"@],
        manufacturer: None,
        model: None,
        sw_version: None,
    }
}

pub open spec fn module_device_spec(module: ModuleIdentity) -> DeviceView {
    DeviceView {
        name: "Pylontech Battery "@ + decimal(module.address as nat),
        identifiers: seq![
            "pylontech_battery_"@ + module.serial_number@,
            "pylontech_battery_"@ + decimal(module.address as nat),
        ],
        manufacturer: Some(module.manufacturer_name@),
        model: Some(module.device_name@),
        sw_version: Some(module.software_version@),
    }
}

/// One retained announcement: its topic and payload.
#[derive(Debug, Clone)]
pub struct DiscoveryMessage {
    pub topic: String,
    pub payload: DiscoveryPayload,
}

pub struct MessageView {
    pub topic: Seq<char>,
    pub payload: PayloadView,
}

impl View for DiscoveryMessage {
    type V = MessageView;

    open spec fn view(&self) -> MessageView {
        MessageView { topic: self.topic@, payload: self.payload@ }
    }
}

/// The unique id of a sensor: its prefix, then `_` and the module address
/// for per-module sensors.
pub open spec fn sensor_unique_id(sensor: SensorDefinition, address: Option<u8>) -> Seq<char> {
    match address {
        Some(a) => sensor.unique_id_prefix@ + "_"@ + decimal(a as nat),
        None => sensor.unique_id_prefix@,
    }
}

/// The announcement of `sensor`.
pub open spec fn sensor_message(
    discovery_prefix: Seq<char>,
    topic_prefix: Seq<char>,
    sensor: SensorDefinition,
    address: Option<u8>,
    state_topic: Seq<char>,
    device: DeviceView,
) -> MessageView {
    let unique_id = sensor_unique_id(sensor, address);
    MessageView {
        topic: discovery_topic_of(discovery_prefix, sensor.component@, unique_id),
        payload: payload_spec(
            sensor.component@,
            sensor.name@,
            unique_id,
            state_topic,
            sensor.state_key@,
            device,
            availability_topic_of(topic_prefix),
            opt_str_view(sensor.device_class),
            opt_str_view(sensor.unit_of_measurement),
            opt_str_view(sensor.state_class),
            opt_str_view(sensor.icon),
            opt_str_view(sensor.entity_category),
            sensor.suggested_display_precision,
        ),
    }
}

/// The announcements of a table of sensors, in table order.
pub open spec fn sensor_messages(
    discovery_prefix: Seq<char>,
    topic_prefix: Seq<char>,
    table: Seq<SensorDefinition>,
    address: Option<u8>,
    state_topic: Seq<char>,
    device: DeviceView,
) -> Seq<MessageView> {
    Seq::new(
        table.len(),
        |i: int| sensor_message(discovery_prefix, topic_prefix, table[i], address, state_topic, device),
    )
}

pub open spec fn cell_unique_id(address: u8, cell: nat) -> Seq<char> {
    "cell_voltage_"@ + decimal(address as nat) + "_"@ + decimal(cell)
}

/// The announcement of the voltage sensor of cell `cell`.
pub open spec fn cell_message(discovery_prefix: Seq<char>, topic_prefix: Seq<char>, module: ModuleIdentity, cell: nat) -> MessageView {
    let unique_id = cell_unique_id(module.address, cell);
    MessageView {
        topic: discovery_topic_of(discovery_prefix, "sensor"@, unique_id),
        payload: payload_spec(
            "sensor"@,
            "Cell "@ + decimal(cell) + " Voltage"@,
            unique_id,
            module_topic_of(topic_prefix, module.address, "/state"@),
            cell_voltage_key(cell),
            module_device_spec(module),
            availability_topic_of(topic_prefix),
            Some("voltage"@),
            Some("V"@),
            Some("measurement"@),
            Some("mdi:gauge"@),
            Some("diagnostic"@),
            Some(3u8),
        ),
    }
}

/// Everything announced for the stack.
pub open spec fn stack_discovery(discovery_prefix: Seq<char>, topic_prefix: Seq<char>) -> Seq<MessageView> {
    sensor_messages(
        discovery_prefix,
        topic_prefix,
        stack_sensors_table(),
        None,
        stack_state_topic_of(topic_prefix),
        stack_device_spec(),
    )
}

/// Everything announced for one module: its measurements, one voltage per
/// cell, its limits, and its management values and flags.
pub open spec fn module_discovery(discovery_prefix: Seq<char>, topic_prefix: Seq<char>, module: ModuleIdentity) -> Seq<MessageView> {
    let device = module_device_spec(module);
    let a = Some(module.address);
    sensor_messages(
        discovery_prefix,
        topic_prefix,
        module_sensors_table(),
        a,
        module_topic_of(topic_prefix, module.address, "/state"@),
        device,
    ) + Seq::new(module.cell_count as nat, |i: int| cell_message(discovery_prefix, topic_prefix, module, i as nat))
        + sensor_messages(
        discovery_prefix,
        topic_prefix,
        system_parameter_sensors_table(),
        a,
        module_topic_of(topic_prefix, module.address, "/system/state"@),
        device,
    ) + sensor_messages(
        discovery_prefix,
        topic_prefix,
        management_value_sensors_table(),
        a,
        module_topic_of(topic_prefix, module.address, "/management/state"@),
        device,
    ) + sensor_messages(
        discovery_prefix,
        topic_prefix,
        management_flag_sensors_table(),
        a,
        module_topic_of(topic_prefix, module.address, "/management/state"@),
        device,
    )
}

/// Everything announced: the stack first, then each module in turn.
pub open spec fn full_discovery(discovery_prefix: Seq<char>, topic_prefix: Seq<char>, modules: Seq<ModuleIdentity>) -> Seq<MessageView>
    decreases modules.len(),
{
    if modules.len() == 0 {
        stack_discovery(discovery_prefix, topic_prefix)
    } else {
        full_discovery(discovery_prefix, topic_prefix, modules.drop_last()) + module_discovery(
            discovery_prefix,
            topic_prefix,
            modules.last(),
        )
    }
}

pub open spec fn messages_view(v: Seq<DiscoveryMessage>) -> Seq<MessageView> {
    v.map_values(|m: DiscoveryMessage| m@)
}

/// Seconds between keep-alive pings to the broker.
pub const MQTT_KEEPALIVE_SECONDS: u64 = 30;

/// Requests the client may queue before publishing blocks.
pub const MQTT_REQUEST_CAPACITY: usize = 32;

/// The delivery guarantee of an MQTT message.
#[derive(Debug, Clone, Copy, PartialEq, Eq)]
pub enum DeliveryQos {
    AtMostOnce,
    AtLeastOnce,
    ExactlyOnce,
}

/// How the adapter connects to the broker, as plain values.
pub struct ConnectionSettings {
    pub client_id: String,
    pub host: String,
    pub port: u16,
    pub keep_alive_secs: u64,
    /// The last will: the broker publishes it when the adapter goes away.
    pub will_topic: String,
    pub will_payload: String,
    pub will_qos: DeliveryQos,
    pub will_retain: bool,
    /// Username and password, present when a username is configured.
    pub credentials: Option<(String, String)>,
    pub request_capacity: usize,
}

/// The broker connection for `config`: a keep-alive of thirty seconds, a
/// retained last will of `offline` on the availability topic delivered at
/// least once, and credentials only when a username is configured, with an
/// empty password when none is.
pub fn connection_settings(config: &MqttConfig) -> (res: ConnectionSettings)
    ensures
        res.client_id@ == config.client_id@,
        res.host@ == config.host@,
        res.port == config.port,
        res.keep_alive_secs == MQTT_KEEPALIVE_SECONDS,
        res.will_topic@ == availability_topic_of(config.topic_prefix@),
        res.will_payload@ == "offline"@,
        res.will_qos == DeliveryQos::AtLeastOnce,
        res.will_retain,
        res.request_capacity == MQTT_REQUEST_CAPACITY,
        config.username is None ==> res.credentials is None,
        config.username matches Some(user) ==> res.credentials matches Some(pair) && pair.0@ == user@
            && pair.1@ == match config.password {
                Some(password) => password@,
                None => Seq::<char>::empty(),
            },
{
    let mut will_topic = config.topic_prefix.clone();
    will_topic.append("/status");
    let credentials = match &config.username {
        Some(user) => {
            let password = match &config.password {
                Some(p) => p.clone(),
                None => String::new(),
            };
            Some((user.clone(), password))
        },
        None => None,
    };
    ConnectionSettings {
        client_id: config.client_id.clone(),
        host: config.host.clone(),
        port: config.port,
        keep_alive_secs: MQTT_KEEPALIVE_SECONDS,
        will_topic,
        will_payload: String::from_str("offline"),
        will_qos: DeliveryQos::AtLeastOnce,
        will_retain: true,
        credentials,
        request_capacity: MQTT_REQUEST_CAPACITY,
    }
}

impl TopicLayout {
    pub fn availability_topic(&self) -> (res: String)
        ensures
            res@ == availability_topic_of(self.topic_prefix@),
    {
        let mut t = self.topic_prefix.clone();
        t.append("/status");
        t
    }

    pub fn stack_state_topic(&self) -> (res: String)
        ensures
            res@ == stack_state_topic_of(self.topic_prefix@),
    {
        let mut t = self.topic_prefix.clone();
        t.append("/stack/state");
        t
    }

    fn module_topic(&self, address: u8, suffix: &str) -> (res: String)
        ensures
            res@ == module_topic_of(self.topic_prefix@, address, suffix@),
    {
        let mut t = self.topic_prefix.clone();
        t.append("/module/");
        push_decimal(&mut t, address as u64);
        t.append(suffix);
        t
    }

    pub fn module_state_topic(&self, address: u8) -> (res: String)
        ensures
            res@ == module_topic_of(self.topic_prefix@, address, "/state"@),
    {
        self.module_topic(address, "/state")
    }

    pub fn module_system_topic(&self, address: u8) -> (res: String)
        ensures
            res@ == module_topic_of(self.topic_prefix@, address, "/system/state"@),
    {
        self.module_topic(address, "/system/state")
    }

    pub fn module_management_topic(&self, address: u8) -> (res: String)
        ensures
            res@ == module_topic_of(self.topic_prefix@, address, "/management/state"@),
    {
        self.module_topic(address, "/management/state")
    }

    pub fn discovery_topic(&self, component: &str, unique_id: &str) -> (res: String)
        ensures
            res@ == discovery_topic_of(self.discovery_prefix@, component@, unique_id@),
    {
        let mut t = self.discovery_prefix.clone();
        t.append("/");
        t.append(component);
        t.append("/");
        t.append(unique_id);
        t.append("/config");
        t
    }

    pub fn stack_device(&self) -> (res: DeviceInfo)
        ensures
            res@ == stack_device_spec(),
    {
        let identifiers = vec![String::from_str("pylontech_battery_stack")];
        let res = DeviceInfo {
            name: String::from_str("Pylontech Battery Stack"),
            identifiers,
            manufacturer: None,
            model: None,
            sw_version: None,
        };
        assert(res@.identifiers =~= stack_device_spec().identifiers);
        res
    }

    pub fn module_device(&self, module: &ModuleIdentity) -> (res: DeviceInfo)
        ensures
            res@ == module_device_spec(*module),
    {
        let mut by_serial = String::from_str("pylontech_battery_");
        by_serial.append(module.serial_number.as_str());
        let mut by_address = String::from_str("pylontech_battery_");
        push_decimal(&mut by_address, module.address as u64);
        let mut name = String::from_str("Pylontech Battery ");
        push_decimal(&mut name, module.address as u64);
        let identifiers = vec![by_serial, by_address];
        let res = DeviceInfo {
            name,
            identifiers,
            manufacturer: Some(module.manufacturer_name.clone()),
            model: Some(module.device_name.clone()),
            sw_version: Some(module.software_version.clone()),
        };
        assert(res@.identifiers =~= module_device_spec(*module).identifiers);
        res
    }

    /// Appends the announcements of `table`, in order.
    fn push_sensor_messages(
        &self,
        out: &mut Vec<DiscoveryMessage>,
        table: &Vec<SensorDefinition>,
        address: Option<u8>,
        state_topic: &str,
        device: &DeviceInfo,
    )
        ensures
            messages_view(final(out)@) == messages_view(old(out)@) + sensor_messages(
                self.discovery_prefix@,
                self.topic_prefix@,
                table@,
                address,
                state_topic@,
                device@,
            ),
    {
        let ghost start = messages_view(out@);
        let ghost expected = sensor_messages(self.discovery_prefix@, self.topic_prefix@, table@, address, state_topic@, device@);
        let mut i: usize = 0;
        while i < table.len()
            invariant
                i <= table@.len(),
                start == messages_view(old(out)@),
                expected == sensor_messages(self.discovery_prefix@, self.topic_prefix@, table@, address, state_topic@, device@),
                messages_view(out@) == start + expected.take(i as int),
            decreases table@.len() - i,
        {
            let sensor = table[i];
            let unique_id = match address {
                Some(a) => {
                    let mut u = String::from_str(sensor.unique_id_prefix);
                    u.append("_");
                    push_decimal(&mut u, a as u64);
                    u
                },
                None => String::from_str(sensor.unique_id_prefix),
            };
            let availability = self.availability_topic();
            let payload = discovery_payload(
                sensor.component,
                sensor.name,
                unique_id.as_str(),
                state_topic,
                sensor.state_key,
                device,
                availability.as_str(),
                sensor.device_class,
                sensor.unit_of_measurement,
                sensor.state_class,
                sensor.icon,
                sensor.entity_category,
                sensor.suggested_display_precision,
            );
            let topic = self.discovery_topic(sensor.component, unique_id.as_str());
            let ghost before = out@;
            out.push(DiscoveryMessage { topic, payload });
            assert(messages_view(out@) =~= messages_view(before).push(out@.last()@));
            assert(expected.take(i + 1) =~= expected.take(i as int).push(expected[i as int]));
            i = i + 1;
        }
        assert(expected.take(table@.len() as int) =~= expected);
    }

    /// Appends the voltage sensors of the module's cells.
    fn push_cell_messages(&self, out: &mut Vec<DiscoveryMessage>, module: &ModuleIdentity, device: &DeviceInfo, state_topic: &str)
        requires
            device@ == module_device_spec(*module),
            state_topic@ == module_topic_of(self.topic_prefix@, module.address, "/state"@),
        ensures
            messages_view(final(out)@) == messages_view(old(out)@) + Seq::new(
                module.cell_count as nat,
                |i: int| cell_message(self.discovery_prefix@, self.topic_prefix@, *module, i as nat),
            ),
    {
        let ghost start = messages_view(out@);
        let ghost expected = Seq::new(
            module.cell_count as nat,
            |i: int| cell_message(self.discovery_prefix@, self.topic_prefix@, *module, i as nat),
        );
        let mut cell_index: u8 = 0;
        while cell_index < module.cell_count
            invariant
                cell_index <= module.cell_count,
                start == messages_view(old(out)@),
                device@ == module_device_spec(*module),
                state_topic@ == module_topic_of(self.topic_prefix@, module.address, "/state"@),
                expected == Seq::new(
                    module.cell_count as nat,
                    |i: int| cell_message(self.discovery_prefix@, self.topic_prefix@, *module, i as nat),
                ),
                messages_view(out@) == start + expected.take(cell_index as int),
            decreases module.cell_count - cell_index,
        {
            let mut unique_id = String::from_str("cell_voltage_");
            push_decimal(&mut unique_id, module.address as u64);
            unique_id.append("_");
            push_decimal(&mut unique_id, cell_index as u64);
            let mut name = String::from_str("Cell ");
            push_decimal(&mut name, cell_index as u64);
            name.append(" Voltage");
            let state_key = cell_voltage_state_key(cell_index as u64);
            let availability = self.availability_topic();
            let payload = discovery_payload(
                "sensor",
                name.as_str(),
                unique_id.as_str(),
                state_topic,
                state_key.as_str(),
                device,
                availability.as_str(),
                Some("voltage"),
                Some("V"),
                Some("measurement"),
                Some("mdi:gauge"),
                Some("diagnostic"),
                Some(3),
            );
            let topic = self.discovery_topic("sensor", unique_id.as_str());
            let ghost before = out@;
            out.push(DiscoveryMessage { topic, payload });
            assert(messages_view(out@) =~= messages_view(before).push(out@.last()@));
            assert(expected.take(cell_index + 1) =~= expected.take(cell_index as int).push(expected[cell_index as int]));
            cell_index = cell_index + 1;
        }
        assert(expected.take(module.cell_count as int) =~= expected);
    }

    /// The announcements for the stack as a whole.
    pub fn stack_discovery_messages(&self) -> (res: Vec<DiscoveryMessage>)
        ensures
            messages_view(res@) == stack_discovery(self.discovery_prefix@, self.topic_prefix@),
    {
        let mut out: Vec<DiscoveryMessage> = Vec::new();
        let device = self.stack_device();
        let state_topic = self.stack_state_topic();
        let table = stack_sensors();
        self.push_sensor_messages(&mut out, &table, None, state_topic.as_str(), &device);
        assert(messages_view(Seq::<DiscoveryMessage>::empty()) =~= Seq::<MessageView>::empty());
        assert(messages_view(out@) =~= stack_discovery(self.discovery_prefix@, self.topic_prefix@));
        out
    }

    /// The announcements for one module.
    pub fn module_discovery_messages(&self, module: &ModuleIdentity) -> (res: Vec<DiscoveryMessage>)
        ensures
            messages_view(res@) == module_discovery(self.discovery_prefix@, self.topic_prefix@, *module),
    {
        let mut out: Vec<DiscoveryMessage> = Vec::new();
        let device = self.module_device(module);
        let state_topic = self.module_state_topic(module.address);
        let system_topic = self.module_system_topic(module.address);
        let management_topic = self.module_management_topic(module.address);
        let a = Some(module.address);
        self.push_sensor_messages(&mut out, &module_sensors(), a, state_topic.as_str(), &device);
        self.push_cell_messages(&mut out, module, &device, state_topic.as_str());
        self.push_sensor_messages(&mut out, &system_parameter_sensors(), a, system_topic.as_str(), &device);
        self.push_sensor_messages(&mut out, &management_value_sensors(), a, management_topic.as_str(), &device);
        self.push_sensor_messages(&mut out, &management_flag_sensors(), a, management_topic.as_str(), &device);
        assert(messages_view(Seq::<DiscoveryMessage>::empty()) =~= Seq::<MessageView>::empty());
        assert(messages_view(out@) =~= module_discovery(self.discovery_prefix@, self.topic_prefix@, *module));
        out
    }

    /// Everything to announce, in publishing order: the stack, then each
    /// module.
    pub fn discovery_messages(&self, modules: &[ModuleIdentity]) -> (res: Vec<DiscoveryMessage>)
        ensures
            messages_view(res@) == full_discovery(self.discovery_prefix@, self.topic_prefix@, modules@),
    {
        let mut out = self.stack_discovery_messages();
        let mut i: usize = 0;
        while i < modules.len()
            invariant
                i <= modules@.len(),
                messages_view(out@) == full_discovery(self.discovery_prefix@, self.topic_prefix@, modules@.take(i as int)),
            decreases modules@.len() - i,
        {
            let mut more = self.module_discovery_messages(&modules[i]);
            let ghost before = out@;
            out.append(&mut more);
            assert(modules@.take(i + 1).drop_last() =~= modules@.take(i as int));
            assert(messages_view(out@) =~= messages_view(before) + module_discovery(
                self.discovery_prefix@,
                self.topic_prefix@,
                modules@[i as int],
            ));
            i = i + 1;
        }
        assert(modules@.take(modules@.len() as int) =~= modules@);
        out
    }
}

/// The failure text when the MQTT event loop ended without saying why.
pub open spec fn stopped_text() -> Seq<char> {
    "mqtt event loop stopped unexpectedly"@
}

/// Whether publishing may go on: fine while the MQTT connection is healthy,
/// otherwise a disconnection error carrying the event loop's last failure.
pub fn connection_health(healthy: bool, last_error: Option<String>) -> (res: Result<(), AppError>)
    ensures
        healthy ==> res is Ok,
        !healthy ==> res is Err && res->Err_0@ == AppFault::MqttDisconnected(
            match last_error {
                Some(m) => m@,
                None => stopped_text(),
            },
        ),
{
    if healthy {
        return Ok(());
    }
    let message = match last_error {
        Some(m) => m,
        None => String::from_str("mqtt event loop stopped unexpectedly"),
    };
    Err(AppError::MqttDisconnected(message))
}

/// Every announcement of a module names that module's device: "Pylontech
/// Battery" and its address, identified by its serial number and by its
/// address, made by its manufacturer, of its device model, running its
/// software version.
pub proof fn lemma_module_announcements_name_the_module(discovery_prefix: Seq<char>, topic_prefix: Seq<char>, module: ModuleIdentity)
    ensures
        forall|i: int| 0 <= i < module_discovery(discovery_prefix, topic_prefix, module).len() ==> {
            let d = (#[trigger] module_discovery(discovery_prefix, topic_prefix, module)[i]).payload.device;
            &&& d.name == "Pylontech Battery "@ + decimal(module.address as nat)
            &&& d.identifiers == seq![
                "pylontech_battery_"@ + module.serial_number@,
                "pylontech_battery_"@ + decimal(module.address as nat),
            ]
            &&& d.manufacturer == Some(module.manufacturer_name@)
            &&& d.model == Some(module.device_name@)
            &&& d.sw_version == Some(module.software_version@)
        },
{
    let dp = discovery_prefix;
    let tp = topic_prefix;
    let device = module_device_spec(module);
    let a = Some(module.address);
    let s1 = sensor_messages(dp, tp, module_sensors_table(), a, module_topic_of(tp, module.address, "/state"@), device);
    let s2 = Seq::new(module.cell_count as nat, |i: int| cell_message(dp, tp, module, i as nat));
    let s3 = sensor_messages(dp, tp, system_parameter_sensors_table(), a, module_topic_of(tp, module.address, "/system/state"@), device);
    let s4 = sensor_messages(dp, tp, management_value_sensors_table(), a, module_topic_of(tp, module.address, "/management/state"@), device);
    let s5 = sensor_messages(dp, tp, management_flag_sensors_table(), a, module_topic_of(tp, module.address, "/management/state"@), device);
    let all = module_discovery(dp, tp, module);
    assert(all == s1 + s2 + s3 + s4 + s5);
    assert forall|i: int| 0 <= i < all.len() implies (#[trigger] all[i]).payload.device == device by {
        let n1 = s1.len() as int;
        let n2 = n1 + s2.len();
        let n3 = n2 + s3.len();
        let n4 = n3 + s4.len();
        if i < n1 {
            assert(all[i] == s1[i]);
        } else if i < n2 {
            assert(all[i] == s2[i - n1]);
        } else if i < n3 {
            assert(all[i] == s3[i - n2]);
        } else if i < n4 {
            assert(all[i] == s4[i - n3]);
        } else {
            assert(all[i] == s5[i - n4]);
        }
    }
}

} // verus!
