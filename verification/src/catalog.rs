//! The device's register catalog: every block the poller reads.
//!
//! [`spec_catalog`] is the catalog's mathematical value; the executable
//! [`Sun2000::param_table`] provably constructs exactly it.

use vstd::prelude::*;
use crate::param::{
    block_wf, spec_block_ok, params_view, BlockModel, CatalogError, ParamModel, Parameter,
    ParameterBlock,
};
use crate::session::Sun2000;
use crate::value::{ParamKind, ValueModel};

verus! {

/// The views of a block vector.
pub open spec fn catalog_view(v: Seq<ParameterBlock>) -> Seq<BlockModel> {
    Seq::new(v.len(), |i: int| v[i]@)
}

/// Well-formedness of a catalog: every block satisfies [`block_wf`].
pub open spec fn catalog_wf(c: Seq<BlockModel>) -> bool {
    forall|i: int| 0 <= i < c.len() ==> block_wf(#[trigger] c[i])
}

/// How many blocks the catalog holds.
pub open spec fn spec_catalog_len() -> int {
    43
}

/// The catalog's blocks, one by one.  Out-of-range indices yield an
/// empty placeholder that [`spec_catalog`] never uses.
pub open spec fn spec_catalog_block(k: int) -> BlockModel {
    if k == 0 {
        BlockModel { reg_address: 30000, len: 35, parameters: seq![
            ParamModel { name: "model_name"@, value: ValueModel::Text(None), desc: None, unit: None, gain: 1, reg_address: 30000, len: 15, initial_read: true, save_to_influx: true },
            ParamModel { name: "serial_number"@, value: ValueModel::Text(None), desc: None, unit: None, gain: 1, reg_address: 30015, len: 10, initial_read: true, save_to_influx: true },
            ParamModel { name: "product_number"@, value: ValueModel::Text(None), desc: None, unit: None, gain: 1, reg_address: 30025, len: 10, initial_read: true, save_to_influx: true },
        ] }
    } else if k == 1 {
        BlockModel { reg_address: 30070, len: 13, parameters: seq![
            ParamModel { name: "model_id"@, value: ValueModel::NumberU16(None), desc: None, unit: None, gain: 1, reg_address: 30070, len: 1, initial_read: true, save_to_influx: true },
            ParamModel { name: "nb_pv_strings"@, value: ValueModel::NumberU16(None), desc: None, unit: None, gain: 1, reg_address: 30071, len: 1, initial_read: true, save_to_influx: true },
            ParamModel { name: "nb_mpp_tracks"@, value: ValueModel::NumberU16(None), desc: None, unit: None, gain: 1, reg_address: 30072, len: 1, initial_read: true, save_to_influx: true },
            ParamModel { name: "rated_power"@, value: ValueModel::NumberU32(None), desc: None, unit: Some("W"@), gain: 1, reg_address: 30073, len: 2, initial_read: true, save_to_influx: true },
            ParamModel { name: "P_max"@, value: ValueModel::NumberU32(None), desc: None, unit: Some("W"@), gain: 1, reg_address: 30075, len: 2, initial_read: false, save_to_influx: true },
            ParamModel { name: "S_max"@, value: ValueModel::NumberU32(None), desc: None, unit: Some("VA"@), gain: 1, reg_address: 30077, len: 2, initial_read: false, save_to_influx: true },
            ParamModel { name: "Q_max_out"@, value: ValueModel::NumberI32(None), desc: None, unit: Some("VAr"@), gain: 1, reg_address: 30079, len: 2, initial_read: false, save_to_influx: true },
            ParamModel { name: "Q_max_in"@, value: ValueModel::NumberI32(None), desc: None, unit: Some("VAr"@), gain: 1, reg_address: 30081, len: 2, initial_read: false, save_to_influx: true },
        ] }
    } else if k == 2 {
        BlockModel { reg_address: 32000, len: 1, parameters: seq![
            ParamModel { name: "state_1"@, value: ValueModel::NumberU16(None), desc: None, unit: Some("state_bitfield16"@), gain: 1, reg_address: 32000, len: 1, initial_read: false, save_to_influx: true },
        ] }
    } else if k == 3 {
        BlockModel { reg_address: 32002, len: 3, parameters: seq![
            ParamModel { name: "state_2"@, value: ValueModel::NumberU16(None), desc: None, unit: Some("state_opt_bitfield16"@), gain: 1, reg_address: 32002, len: 1, initial_read: false, save_to_influx: true },
            ParamModel { name: "state_3"@, value: ValueModel::NumberU32(None), desc: None, unit: Some("state_opt_bitfield32"@), gain: 1, reg_address: 32003, len: 2, initial_read: false, save_to_influx: true },
        ] }
    } else if k == 4 {
        BlockModel { reg_address: 32008, len: 3, parameters: seq![
            ParamModel { name: "alarm_1"@, value: ValueModel::NumberU16(None), desc: None, unit: Some("alarm_bitfield16"@), gain: 1, reg_address: 32008, len: 1, initial_read: false, save_to_influx: true },
            ParamModel { name: "alarm_2"@, value: ValueModel::NumberU16(None), desc: None, unit: Some("alarm_bitfield16"@), gain: 1, reg_address: 32009, len: 1, initial_read: false, save_to_influx: true },
            ParamModel { name: "alarm_3"@, value: ValueModel::NumberU16(None), desc: None, unit: Some("alarm_bitfield16"@), gain: 1, reg_address: 32010, len: 1, initial_read: false, save_to_influx: true },
        ] }
    } else if k == 5 {
        BlockModel { reg_address: 32016, len: 8, parameters: seq![
            ParamModel { name: "pv_01_voltage"@, value: ValueModel::NumberI16(None), desc: None, unit: Some("V"@), gain: 10, reg_address: 32016, len: 1, initial_read: false, save_to_influx: true },
            ParamModel { name: "pv_01_current"@, value: ValueModel::NumberI16(None), desc: None, unit: Some("A"@), gain: 100, reg_address: 32017, len: 1, initial_read: false, save_to_influx: true },
            ParamModel { name: "pv_02_voltage"@, value: ValueModel::NumberI16(None), desc: None, unit: Some("V"@), gain: 10, reg_address: 32018, len: 1, initial_read: false, save_to_influx: true },
            ParamModel { name: "pv_02_current"@, value: ValueModel::NumberI16(None), desc: None, unit: Some("A"@), gain: 100, reg_address: 32019, len: 1, initial_read: false, save_to_influx: true },
            ParamModel { name: "pv_03_voltage"@, value: ValueModel::NumberI16(None), desc: None, unit: Some("V"@), gain: 10, reg_address: 32020, len: 1, initial_read: false, save_to_influx: true },
            ParamModel { name: "pv_03_current"@, value: ValueModel::NumberI16(None), desc: None, unit: Some("A"@), gain: 100, reg_address: 32021, len: 1, initial_read: false, save_to_influx: true },
            ParamModel { name: "pv_04_voltage"@, value: ValueModel::NumberI16(None), desc: None, unit: Some("V"@), gain: 10, reg_address: 32022, len: 1, initial_read: false, save_to_influx: true },
            ParamModel { name: "pv_04_current"@, value: ValueModel::NumberI16(None), desc: None, unit: Some("A"@), gain: 100, reg_address: 32023, len: 1, initial_read: false, save_to_influx: true },
        ] }
    } else if k == 6 {
        BlockModel { reg_address: 32064, len: 31, parameters: seq![
            ParamModel { name: "input_power"@, value: ValueModel::NumberI32(None), desc: None, unit: Some("W"@), gain: 1, reg_address: 32064, len: 2, initial_read: false, save_to_influx: true },
            ParamModel { name: "line_voltage_A_B"@, value: ValueModel::NumberU16(None), desc: Some("grid_voltage"@), unit: Some("V"@), gain: 10, reg_address: 32066, len: 1, initial_read: false, save_to_influx: true },
            ParamModel { name: "line_voltage_B_C"@, value: ValueModel::NumberU16(None), desc: None, unit: Some("V"@), gain: 10, reg_address: 32067, len: 1, initial_read: false, save_to_influx: true },
            ParamModel { name: "line_voltage_C_A"@, value: ValueModel::NumberU16(None), desc: None, unit: Some("V"@), gain: 10, reg_address: 32068, len: 1, initial_read: false, save_to_influx: true },
            ParamModel { name: "phase_A_voltage"@, value: ValueModel::NumberU16(None), desc: None, unit: Some("V"@), gain: 10, reg_address: 32069, len: 1, initial_read: false, save_to_influx: true },
            ParamModel { name: "phase_B_voltage"@, value: ValueModel::NumberU16(None), desc: None, unit: Some("V"@), gain: 10, reg_address: 32070, len: 1, initial_read: false, save_to_influx: true },
            ParamModel { name: "phase_C_voltage"@, value: ValueModel::NumberU16(None), desc: None, unit: Some("V"@), gain: 10, reg_address: 32071, len: 1, initial_read: false, save_to_influx: true },
            ParamModel { name: "phase_A_current"@, value: ValueModel::NumberI32(None), desc: Some("grid_current"@), unit: Some("A"@), gain: 1000, reg_address: 32072, len: 2, initial_read: false, save_to_influx: true },
            ParamModel { name: "phase_B_current"@, value: ValueModel::NumberI32(None), desc: None, unit: Some("A"@), gain: 1000, reg_address: 32074, len: 2, initial_read: false, save_to_influx: true },
            ParamModel { name: "phase_C_current"@, value: ValueModel::NumberI32(None), desc: None, unit: Some("A"@), gain: 1000, reg_address: 32076, len: 2, initial_read: false, save_to_influx: true },
            ParamModel { name: "day_active_power_peak"@, value: ValueModel::NumberI32(None), desc: None, unit: Some("W"@), gain: 1, reg_address: 32078, len: 2, initial_read: false, save_to_influx: true },
            ParamModel { name: "active_power"@, value: ValueModel::NumberI32(None), desc: None, unit: Some("W"@), gain: 1, reg_address: 32080, len: 2, initial_read: false, save_to_influx: true },
            ParamModel { name: "reactive_power"@, value: ValueModel::NumberI32(None), desc: None, unit: Some("VA"@), gain: 1, reg_address: 32082, len: 2, initial_read: false, save_to_influx: true },
            ParamModel { name: "power_factor"@, value: ValueModel::NumberI16(None), desc: None, unit: None, gain: 1000, reg_address: 32084, len: 1, initial_read: false, save_to_influx: true },
            ParamModel { name: "grid_frequency"@, value: ValueModel::NumberU16(None), desc: None, unit: Some("Hz"@), gain: 100, reg_address: 32085, len: 1, initial_read: false, save_to_influx: true },
            ParamModel { name: "efficiency"@, value: ValueModel::NumberU16(None), desc: None, unit: Some("%"@), gain: 100, reg_address: 32086, len: 1, initial_read: false, save_to_influx: true },
            ParamModel { name: "internal_temperature"@, value: ValueModel::NumberI16(None), desc: None, unit: Some("°C"@), gain: 10, reg_address: 32087, len: 1, initial_read: false, save_to_influx: true },
            ParamModel { name: "insulation_resistance"@, value: ValueModel::NumberU16(None), desc: None, unit: Some("MΩ"@), gain: 100, reg_address: 32088, len: 1, initial_read: false, save_to_influx: true },
            ParamModel { name: "device_status"@, value: ValueModel::NumberU16(None), desc: None, unit: Some("status_enum"@), gain: 1, reg_address: 32089, len: 1, initial_read: false, save_to_influx: true },
            ParamModel { name: "fault_code"@, value: ValueModel::NumberU16(None), desc: None, unit: None, gain: 1, reg_address: 32090, len: 1, initial_read: false, save_to_influx: true },
            ParamModel { name: "startup_time"@, value: ValueModel::NumberU32(None), desc: None, unit: Some("epoch"@), gain: 1, reg_address: 32091, len: 2, initial_read: false, save_to_influx: true },
            ParamModel { name: "shutdown_time"@, value: ValueModel::NumberU32(None), desc: None, unit: Some("epoch"@), gain: 1, reg_address: 32093, len: 2, initial_read: false, save_to_influx: true },
        ] }
    } else if k == 7 {
        BlockModel { reg_address: 32106, len: 2, parameters: seq![
            ParamModel { name: "accumulated_yield_energy"@, value: ValueModel::NumberU32(None), desc: None, unit: Some("kWh"@), gain: 100, reg_address: 32106, len: 2, initial_read: false, save_to_influx: true },
        ] }
    } else if k == 8 {
        BlockModel { reg_address: 32110, len: 2, parameters: seq![
            ParamModel { name: "unknown_time_1"@, value: ValueModel::NumberU32(None), desc: None, unit: Some("epoch"@), gain: 1, reg_address: 32110, len: 2, initial_read: false, save_to_influx: true },
        ] }
    } else if k == 9 {
        BlockModel { reg_address: 32114, len: 2, parameters: seq![
            ParamModel { name: "daily_yield_energy"@, value: ValueModel::NumberU32(None), desc: None, unit: Some("kWh"@), gain: 100, reg_address: 32114, len: 2, initial_read: true, save_to_influx: true },
        ] }
    } else if k == 10 {
        BlockModel { reg_address: 37000, len: 5, parameters: seq![
            ParamModel { name: "storage1_status"@, value: ValueModel::NumberI16(None), desc: None, unit: Some("storage_status_enum"@), gain: 1, reg_address: 37000, len: 1, initial_read: false, save_to_influx: true },
            ParamModel { name: "storage1_charge_discharge_power"@, value: ValueModel::NumberI32(None), desc: None, unit: Some("W"@), gain: 1, reg_address: 37001, len: 2, initial_read: false, save_to_influx: true },
            ParamModel { name: "storage1_bus_voltage"@, value: ValueModel::NumberU16(None), desc: None, unit: Some("V"@), gain: 10, reg_address: 37003, len: 1, initial_read: false, save_to_influx: true },
            ParamModel { name: "storage1_battery_soc"@, value: ValueModel::NumberU16(None), desc: None, unit: Some("%"@), gain: 10, reg_address: 37004, len: 1, initial_read: false, save_to_influx: true },
        ] }
    } else if k == 11 {
        BlockModel { reg_address: 37006, len: 5, parameters: seq![
            ParamModel { name: "storage_working_mode"@, value: ValueModel::NumberU16(None), desc: None, unit: Some("storage_working_mode_enum"@), gain: 1, reg_address: 37006, len: 1, initial_read: false, save_to_influx: true },
            ParamModel { name: "storage1_rated_charge_power"@, value: ValueModel::NumberU32(None), desc: None, unit: Some("W"@), gain: 1, reg_address: 37007, len: 2, initial_read: false, save_to_influx: true },
            ParamModel { name: "storage1_rated_discharge_power"@, value: ValueModel::NumberU32(None), desc: None, unit: Some("W"@), gain: 1, reg_address: 37009, len: 2, initial_read: false, save_to_influx: true },
        ] }
    } else if k == 12 {
        BlockModel { reg_address: 37014, len: 5, parameters: seq![
            ParamModel { name: "storage1_fault_id"@, value: ValueModel::NumberU16(None), desc: None, unit: None, gain: 1, reg_address: 37014, len: 1, initial_read: false, save_to_influx: true },
            ParamModel { name: "storage_current_day_charge_capacity"@, value: ValueModel::NumberU32(None), desc: None, unit: Some("kWh"@), gain: 100, reg_address: 37015, len: 2, initial_read: false, save_to_influx: true },
            ParamModel { name: "storage_current_day_discharge_capacity"@, value: ValueModel::NumberU32(None), desc: None, unit: Some("kWh"@), gain: 100, reg_address: 37017, len: 2, initial_read: false, save_to_influx: true },
        ] }
    } else if k == 13 {
        BlockModel { reg_address: 37021, len: 2, parameters: seq![
            ParamModel { name: "storage1_bus_current"@, value: ValueModel::NumberI16(None), desc: None, unit: Some("A"@), gain: 10, reg_address: 37021, len: 1, initial_read: false, save_to_influx: true },
            ParamModel { name: "storage1_internal_temperature"@, value: ValueModel::NumberI16(None), desc: None, unit: Some("°C"@), gain: 10, reg_address: 37022, len: 1, initial_read: false, save_to_influx: true },
        ] }
    } else if k == 14 {
        BlockModel { reg_address: 37025, len: 25, parameters: seq![
            ParamModel { name: "storage1_remaining_charge_discharge_time"@, value: ValueModel::NumberU16(None), desc: None, unit: Some("min"@), gain: 1, reg_address: 37025, len: 1, initial_read: false, save_to_influx: true },
            ParamModel { name: "storage1_dcdc_version"@, value: ValueModel::Text(None), desc: None, unit: None, gain: 1, reg_address: 37026, len: 10, initial_read: false, save_to_influx: true },
            ParamModel { name: "storage1_bms_version"@, value: ValueModel::Text(None), desc: None, unit: None, gain: 1, reg_address: 37036, len: 10, initial_read: false, save_to_influx: true },
            ParamModel { name: "storage1_maximum_charge_power"@, value: ValueModel::NumberU32(None), desc: None, unit: Some("W"@), gain: 1, reg_address: 37046, len: 2, initial_read: false, save_to_influx: true },
            ParamModel { name: "storage1_maximum_discharge_power"@, value: ValueModel::NumberU32(None), desc: None, unit: Some("W"@), gain: 1, reg_address: 37048, len: 2, initial_read: false, save_to_influx: true },
        ] }
    } else if k == 15 {
        BlockModel { reg_address: 37052, len: 10, parameters: seq![
            ParamModel { name: "storage1_sn"@, value: ValueModel::Text(None), desc: None, unit: None, gain: 1, reg_address: 37052, len: 10, initial_read: false, save_to_influx: true },
        ] }
    } else if k == 16 {
        BlockModel { reg_address: 37066, len: 4, parameters: seq![
            ParamModel { name: "storage1_total_charge"@, value: ValueModel::NumberU32(None), desc: None, unit: Some("kWh"@), gain: 100, reg_address: 37066, len: 2, initial_read: false, save_to_influx: true },
            ParamModel { name: "storage1_total_discharge"@, value: ValueModel::NumberU32(None), desc: None, unit: Some("kWh"@), gain: 100, reg_address: 37068, len: 2, initial_read: false, save_to_influx: true },
        ] }
    } else if k == 17 {
        BlockModel { reg_address: 37100, len: 38, parameters: seq![
            ParamModel { name: "power_meter_status"@, value: ValueModel::NumberU16(None), desc: None, unit: None, gain: 1, reg_address: 37100, len: 1, initial_read: false, save_to_influx: true },
            ParamModel { name: "grid_A_voltage"@, value: ValueModel::NumberI32(None), desc: None, unit: Some("V"@), gain: 10, reg_address: 37101, len: 2, initial_read: false, save_to_influx: true },
            ParamModel { name: "grid_B_voltage"@, value: ValueModel::NumberI32(None), desc: None, unit: Some("V"@), gain: 10, reg_address: 37103, len: 2, initial_read: false, save_to_influx: true },
            ParamModel { name: "grid_C_voltage"@, value: ValueModel::NumberI32(None), desc: None, unit: Some("V"@), gain: 10, reg_address: 37105, len: 2, initial_read: false, save_to_influx: true },
            ParamModel { name: "active_grid_A_current"@, value: ValueModel::NumberI32(None), desc: None, unit: Some("I"@), gain: 100, reg_address: 37107, len: 2, initial_read: false, save_to_influx: true },
            ParamModel { name: "active_grid_B_current"@, value: ValueModel::NumberI32(None), desc: None, unit: Some("I"@), gain: 100, reg_address: 37109, len: 2, initial_read: false, save_to_influx: true },
            ParamModel { name: "active_grid_C_current"@, value: ValueModel::NumberI32(None), desc: None, unit: Some("I"@), gain: 100, reg_address: 37111, len: 2, initial_read: false, save_to_influx: true },
            ParamModel { name: "power_meter_active_power"@, value: ValueModel::NumberI32(None), desc: None, unit: Some("W"@), gain: 1, reg_address: 37113, len: 2, initial_read: false, save_to_influx: true },
            ParamModel { name: "power_meter_reactive_power"@, value: ValueModel::NumberI32(None), desc: None, unit: Some("Var"@), gain: 1, reg_address: 37115, len: 2, initial_read: false, save_to_influx: true },
            ParamModel { name: "active_grid_power_factor"@, value: ValueModel::NumberI16(None), desc: None, unit: None, gain: 1000, reg_address: 37117, len: 1, initial_read: false, save_to_influx: true },
            ParamModel { name: "active_grid_frequency"@, value: ValueModel::NumberI16(None), desc: None, unit: Some("Hz"@), gain: 100, reg_address: 37118, len: 1, initial_read: false, save_to_influx: true },
            ParamModel { name: "grid_exported_energy"@, value: ValueModel::NumberI32(None), desc: None, unit: Some("kWh"@), gain: 100, reg_address: 37119, len: 2, initial_read: false, save_to_influx: true },
            ParamModel { name: "power_meter_reverse_active_power"@, value: ValueModel::NumberI32(None), desc: None, unit: Some("kWh"@), gain: 100, reg_address: 37121, len: 2, initial_read: false, save_to_influx: true },
            ParamModel { name: "power_meter_accumulated_reactive_powe"@, value: ValueModel::NumberI32(None), desc: None, unit: Some("kVarH"@), gain: 100, reg_address: 37123, len: 2, initial_read: false, save_to_influx: true },
            ParamModel { name: "power_meter_meter_type"@, value: ValueModel::NumberU16(None), desc: None, unit: None, gain: 1, reg_address: 37125, len: 1, initial_read: false, save_to_influx: true },
            ParamModel { name: "active_grid_A_B_voltage"@, value: ValueModel::NumberI32(None), desc: None, unit: Some("V"@), gain: 10, reg_address: 37126, len: 2, initial_read: false, save_to_influx: true },
            ParamModel { name: "active_grid_B_C_voltage"@, value: ValueModel::NumberI32(None), desc: None, unit: Some("V"@), gain: 10, reg_address: 37128, len: 2, initial_read: false, save_to_influx: true },
            ParamModel { name: "active_grid_C_A_voltage"@, value: ValueModel::NumberI32(None), desc: None, unit: Some("V"@), gain: 10, reg_address: 37130, len: 2, initial_read: false, save_to_influx: true },
            ParamModel { name: "active_grid_A_power"@, value: ValueModel::NumberI32(None), desc: None, unit: Some("W"@), gain: 1, reg_address: 37132, len: 2, initial_read: false, save_to_influx: true },
            ParamModel { name: "active_grid_B_power"@, value: ValueModel::NumberI32(None), desc: None, unit: Some("W"@), gain: 1, reg_address: 37134, len: 2, initial_read: false, save_to_influx: true },
            ParamModel { name: "active_grid_C_power"@, value: ValueModel::NumberI32(None), desc: None, unit: Some("W"@), gain: 1, reg_address: 37136, len: 2, initial_read: false, save_to_influx: true },
        ] }
    } else if k == 18 {
        BlockModel { reg_address: 37200, len: 2, parameters: seq![
            ParamModel { name: "nb_optimizers"@, value: ValueModel::NumberU16(None), desc: None, unit: None, gain: 1, reg_address: 37200, len: 1, initial_read: false, save_to_influx: false },
            ParamModel { name: "nb_online_optimizers"@, value: ValueModel::NumberU16(None), desc: None, unit: None, gain: 1, reg_address: 37201, len: 1, initial_read: false, save_to_influx: true },
        ] }
    } else if k == 19 {
        BlockModel { reg_address: 37758, len: 3, parameters: seq![
            ParamModel { name: "storage_rated_capacity"@, value: ValueModel::NumberU32(None), desc: None, unit: Some("Wh"@), gain: 1, reg_address: 37758, len: 2, initial_read: false, save_to_influx: true },
            ParamModel { name: "storage_battery_soc"@, value: ValueModel::NumberU16(None), desc: None, unit: Some("%"@), gain: 10, reg_address: 37760, len: 1, initial_read: false, save_to_influx: true },
        ] }
    } else if k == 20 {
        BlockModel { reg_address: 37762, len: 5, parameters: seq![
            ParamModel { name: "storage_status"@, value: ValueModel::NumberU16(None), desc: None, unit: Some("storage_status_enum"@), gain: 1, reg_address: 37762, len: 1, initial_read: false, save_to_influx: true },
            ParamModel { name: "storage_bus_voltage"@, value: ValueModel::NumberU16(None), desc: None, unit: Some("V"@), gain: 10, reg_address: 37763, len: 1, initial_read: false, save_to_influx: true },
            ParamModel { name: "storage_bus_current"@, value: ValueModel::NumberI16(None), desc: None, unit: Some("A"@), gain: 10, reg_address: 37764, len: 1, initial_read: false, save_to_influx: true },
            ParamModel { name: "storage_charge_discharge_power"@, value: ValueModel::NumberI32(None), desc: None, unit: Some("W"@), gain: 1, reg_address: 37765, len: 2, initial_read: false, save_to_influx: true },
        ] }
    } else if k == 21 {
        BlockModel { reg_address: 37784, len: 4, parameters: seq![
            ParamModel { name: "storage_current_day_charge_capacity"@, value: ValueModel::NumberU32(None), desc: None, unit: Some("kWh"@), gain: 100, reg_address: 37784, len: 2, initial_read: false, save_to_influx: true },
            ParamModel { name: "storage_current_day_discharge_capacity"@, value: ValueModel::NumberU32(None), desc: None, unit: Some("kWh"@), gain: 100, reg_address: 37786, len: 2, initial_read: false, save_to_influx: true },
        ] }
    } else if k == 22 {
        BlockModel { reg_address: 37814, len: 15, parameters: seq![
            ParamModel { name: "storage1_sw_version"@, value: ValueModel::Text(None), desc: None, unit: None, gain: 1, reg_address: 37814, len: 15, initial_read: false, save_to_influx: true },
        ] }
    } else if k == 23 {
        BlockModel { reg_address: 38200, len: 25, parameters: seq![
            ParamModel { name: "storage1_battery1_sn"@, value: ValueModel::Text(None), desc: None, unit: None, gain: 1, reg_address: 38200, len: 10, initial_read: false, save_to_influx: true },
            ParamModel { name: "storage1_battery1_sw_version"@, value: ValueModel::Text(None), desc: None, unit: None, gain: 1, reg_address: 38210, len: 15, initial_read: false, save_to_influx: true },
        ] }
    } else if k == 24 {
        BlockModel { reg_address: 38228, len: 2, parameters: seq![
            ParamModel { name: "storage1_battery1_working_status"@, value: ValueModel::NumberU16(None), desc: None, unit: Some("storage_status_enum"@), gain: 1, reg_address: 38228, len: 1, initial_read: false, save_to_influx: true },
            ParamModel { name: "storage1_battery1_soc"@, value: ValueModel::NumberU16(None), desc: None, unit: Some("%"@), gain: 10, reg_address: 38229, len: 1, initial_read: false, save_to_influx: true },
        ] }
    } else if k == 25 {
        BlockModel { reg_address: 38233, len: 4, parameters: seq![
            ParamModel { name: "storage1_battery1_charge_discharge_power"@, value: ValueModel::NumberI32(None), desc: None, unit: Some("kW"@), gain: 1, reg_address: 38233, len: 2, initial_read: false, save_to_influx: true },
            ParamModel { name: "storage1_battery1_voltage"@, value: ValueModel::NumberU16(None), desc: None, unit: Some("V"@), gain: 10, reg_address: 38235, len: 1, initial_read: false, save_to_influx: true },
            ParamModel { name: "storage1_battery1_current"@, value: ValueModel::NumberI16(None), desc: None, unit: Some("A"@), gain: 10, reg_address: 38236, len: 1, initial_read: false, save_to_influx: true },
        ] }
    } else if k == 26 {
        BlockModel { reg_address: 38238, len: 29, parameters: seq![
            ParamModel { name: "storage1_battery1_total_charge"@, value: ValueModel::NumberU32(None), desc: None, unit: Some("kWh"@), gain: 100, reg_address: 38238, len: 2, initial_read: false, save_to_influx: true },
            ParamModel { name: "storage1_battery1_total_discharge"@, value: ValueModel::NumberU32(None), desc: None, unit: Some("kWh"@), gain: 100, reg_address: 38240, len: 2, initial_read: false, save_to_influx: true },
            ParamModel { name: "storage1_battery2_sn"@, value: ValueModel::Text(None), desc: None, unit: None, gain: 1, reg_address: 38242, len: 10, initial_read: false, save_to_influx: true },
            ParamModel { name: "storage1_battery2_sw_version"@, value: ValueModel::Text(None), desc: None, unit: None, gain: 1, reg_address: 38252, len: 15, initial_read: false, save_to_influx: true },
        ] }
    } else if k == 27 {
        BlockModel { reg_address: 38270, len: 2, parameters: seq![
            ParamModel { name: "storage1_battery2_working_status"@, value: ValueModel::NumberU16(None), desc: None, unit: Some("storage_status_enum"@), gain: 1, reg_address: 38270, len: 1, initial_read: false, save_to_influx: true },
            ParamModel { name: "storage1_battery2_soc"@, value: ValueModel::NumberU16(None), desc: None, unit: Some("%"@), gain: 10, reg_address: 38271, len: 1, initial_read: false, save_to_influx: true },
        ] }
    } else if k == 28 {
        BlockModel { reg_address: 38275, len: 4, parameters: seq![
            ParamModel { name: "storage1_battery2_charge_discharge_power"@, value: ValueModel::NumberI32(None), desc: None, unit: Some("kW"@), gain: 1, reg_address: 38275, len: 2, initial_read: false, save_to_influx: true },
            ParamModel { name: "storage1_battery2_voltage"@, value: ValueModel::NumberU16(None), desc: None, unit: Some("V"@), gain: 10, reg_address: 38277, len: 1, initial_read: false, save_to_influx: true },
            ParamModel { name: "storage1_battery2_current"@, value: ValueModel::NumberI16(None), desc: None, unit: Some("A"@), gain: 10, reg_address: 38278, len: 1, initial_read: false, save_to_influx: true },
        ] }
    } else if k == 29 {
        BlockModel { reg_address: 38280, len: 29, parameters: seq![
            ParamModel { name: "storage1_battery2_total_charge"@, value: ValueModel::NumberU32(None), desc: None, unit: Some("kWh"@), gain: 100, reg_address: 38280, len: 2, initial_read: false, save_to_influx: true },
            ParamModel { name: "storage1_battery2_total_discharge"@, value: ValueModel::NumberU32(None), desc: None, unit: Some("kWh"@), gain: 100, reg_address: 38282, len: 2, initial_read: false, save_to_influx: true },
            ParamModel { name: "storage1_battery3_sn"@, value: ValueModel::Text(None), desc: None, unit: None, gain: 1, reg_address: 38284, len: 10, initial_read: false, save_to_influx: true },
            ParamModel { name: "storage1_battery3_sw_version"@, value: ValueModel::Text(None), desc: None, unit: None, gain: 1, reg_address: 38294, len: 15, initial_read: false, save_to_influx: true },
        ] }
    } else if k == 30 {
        BlockModel { reg_address: 38312, len: 2, parameters: seq![
            ParamModel { name: "storage1_battery3_working_status"@, value: ValueModel::NumberU16(None), desc: None, unit: Some("storage_status_enum"@), gain: 1, reg_address: 38312, len: 1, initial_read: false, save_to_influx: true },
            ParamModel { name: "storage1_battery3_soc"@, value: ValueModel::NumberU16(None), desc: None, unit: Some("%"@), gain: 10, reg_address: 38313, len: 1, initial_read: false, save_to_influx: true },
        ] }
    } else if k == 31 {
        BlockModel { reg_address: 38317, len: 4, parameters: seq![
            ParamModel { name: "storage1_battery3_charge_discharge_power"@, value: ValueModel::NumberI32(None), desc: None, unit: Some("kW"@), gain: 1, reg_address: 38317, len: 2, initial_read: false, save_to_influx: true },
            ParamModel { name: "storage1_battery3_voltage"@, value: ValueModel::NumberU16(None), desc: None, unit: Some("V"@), gain: 10, reg_address: 38319, len: 1, initial_read: false, save_to_influx: true },
            ParamModel { name: "storage1_battery3_current"@, value: ValueModel::NumberI16(None), desc: None, unit: Some("A"@), gain: 10, reg_address: 38320, len: 1, initial_read: false, save_to_influx: true },
        ] }
    } else if k == 32 {
        BlockModel { reg_address: 38322, len: 4, parameters: seq![
            ParamModel { name: "storage1_battery3_total_charge"@, value: ValueModel::NumberU32(None), desc: None, unit: Some("kWh"@), gain: 100, reg_address: 38322, len: 2, initial_read: false, save_to_influx: true },
            ParamModel { name: "storage1_battery3_total_discharge"@, value: ValueModel::NumberU32(None), desc: None, unit: Some("kWh"@), gain: 100, reg_address: 38324, len: 2, initial_read: false, save_to_influx: true },
        ] }
    } else if k == 33 {
        BlockModel { reg_address: 38452, len: 6, parameters: seq![
            ParamModel { name: "storage1_battery1_max_temperature"@, value: ValueModel::NumberI16(None), desc: None, unit: Some("°C"@), gain: 10, reg_address: 38452, len: 1, initial_read: false, save_to_influx: true },
            ParamModel { name: "storage1_battery1_min_temperature"@, value: ValueModel::NumberI16(None), desc: None, unit: Some("°C"@), gain: 10, reg_address: 38453, len: 1, initial_read: false, save_to_influx: true },
            ParamModel { name: "storage1_battery2_max_temperature"@, value: ValueModel::NumberI16(None), desc: None, unit: Some("°C"@), gain: 10, reg_address: 38454, len: 1, initial_read: false, save_to_influx: true },
            ParamModel { name: "storage1_battery2_min_temperature"@, value: ValueModel::NumberI16(None), desc: None, unit: Some("°C"@), gain: 10, reg_address: 38455, len: 1, initial_read: false, save_to_influx: true },
            ParamModel { name: "storage1_battery3_max_temperature"@, value: ValueModel::NumberI16(None), desc: None, unit: Some("°C"@), gain: 10, reg_address: 38456, len: 1, initial_read: false, save_to_influx: true },
            ParamModel { name: "storage1_battery3_min_temperature"@, value: ValueModel::NumberI16(None), desc: None, unit: Some("°C"@), gain: 10, reg_address: 38457, len: 1, initial_read: false, save_to_influx: true },
        ] }
    } else if k == 34 {
        BlockModel { reg_address: 40000, len: 2, parameters: seq![
            ParamModel { name: "system_time"@, value: ValueModel::NumberU32(None), desc: None, unit: Some("epoch"@), gain: 1, reg_address: 40000, len: 2, initial_read: false, save_to_influx: true },
        ] }
    } else if k == 35 {
        BlockModel { reg_address: 42000, len: 1, parameters: seq![
            ParamModel { name: "grid_code"@, value: ValueModel::NumberU16(None), desc: None, unit: Some("grid_enum"@), gain: 1, reg_address: 42000, len: 1, initial_read: false, save_to_influx: true },
        ] }
    } else if k == 36 {
        BlockModel { reg_address: 43006, len: 1, parameters: seq![
            ParamModel { name: "time_zone"@, value: ValueModel::NumberI16(None), desc: None, unit: Some("min"@), gain: 1, reg_address: 43006, len: 1, initial_read: false, save_to_influx: true },
        ] }
    } else if k == 37 {
        BlockModel { reg_address: 47004, len: 1, parameters: seq![
            ParamModel { name: "storage_working_mode"@, value: ValueModel::NumberI16(None), desc: None, unit: Some("storage_working_mode_enum"@), gain: 1, reg_address: 47004, len: 1, initial_read: false, save_to_influx: true },
        ] }
    } else if k == 38 {
        BlockModel { reg_address: 47027, len: 1, parameters: seq![
            ParamModel { name: "storage_time_of_use_price"@, value: ValueModel::NumberI16(None), desc: None, unit: Some("storage_tou_price_enum"@), gain: 1, reg_address: 47027, len: 1, initial_read: false, save_to_influx: true },
        ] }
    } else if k == 39 {
        BlockModel { reg_address: 47069, len: 2, parameters: seq![
            ParamModel { name: "storage_lcoe"@, value: ValueModel::NumberU32(None), desc: None, unit: None, gain: 1000, reg_address: 47069, len: 2, initial_read: false, save_to_influx: true },
        ] }
    } else if k == 40 {
        BlockModel { reg_address: 47075, len: 12, parameters: seq![
            ParamModel { name: "storage_maximum_charging_power"@, value: ValueModel::NumberU32(None), desc: None, unit: Some("W"@), gain: 1, reg_address: 47075, len: 2, initial_read: false, save_to_influx: true },
            ParamModel { name: "storage_maximum_discharging_power"@, value: ValueModel::NumberU32(None), desc: None, unit: Some("W"@), gain: 1, reg_address: 47077, len: 2, initial_read: false, save_to_influx: true },
            ParamModel { name: "storage_power_limit_grid_tied_point"@, value: ValueModel::NumberI32(None), desc: None, unit: Some("W"@), gain: 1, reg_address: 47079, len: 2, initial_read: false, save_to_influx: true },
            ParamModel { name: "storage_charging_cutoff_capacity"@, value: ValueModel::NumberU16(None), desc: None, unit: Some("%"@), gain: 10, reg_address: 47081, len: 1, initial_read: false, save_to_influx: true },
            ParamModel { name: "storage_discharging_cutoff_capacity"@, value: ValueModel::NumberU16(None), desc: None, unit: Some("%"@), gain: 10, reg_address: 47082, len: 1, initial_read: false, save_to_influx: true },
            ParamModel { name: "storage_forced_charging_and_discharging_period"@, value: ValueModel::NumberU16(None), desc: None, unit: Some("min"@), gain: 1, reg_address: 47083, len: 1, initial_read: false, save_to_influx: true },
            ParamModel { name: "storage_forced_charging_and_discharging_power"@, value: ValueModel::NumberI32(None), desc: None, unit: Some("min"@), gain: 1, reg_address: 47084, len: 2, initial_read: false, save_to_influx: true },
            ParamModel { name: "storage_working_mode"@, value: ValueModel::NumberU16(None), desc: None, unit: Some("working_mode"@), gain: 1, reg_address: 47086, len: 1, initial_read: false, save_to_influx: true },
        ] }
    } else if k == 41 {
        BlockModel { reg_address: 47415, len: 1, parameters: seq![
            ParamModel { name: "active_power_control_mode"@, value: ValueModel::NumberU16(None), desc: None, unit: Some("active_power_control_mode_enum"@), gain: 1, reg_address: 47415, len: 1, initial_read: false, save_to_influx: true },
        ] }
    } else if k == 42 {
        BlockModel { reg_address: 47750, len: 3, parameters: seq![
            ParamModel { name: "storage1_battery1_no"@, value: ValueModel::NumberU16(None), desc: None, unit: None, gain: 1, reg_address: 47750, len: 1, initial_read: false, save_to_influx: true },
            ParamModel { name: "storage1_battery2_no"@, value: ValueModel::NumberU16(None), desc: None, unit: None, gain: 1, reg_address: 47751, len: 1, initial_read: false, save_to_influx: true },
            ParamModel { name: "storage1_battery3_no"@, value: ValueModel::NumberU16(None), desc: None, unit: None, gain: 1, reg_address: 47752, len: 1, initial_read: false, save_to_influx: true },
        ] }
    } else {
        BlockModel { reg_address: 0, len: 0, parameters: Seq::empty() }
    }
}

/// The full register catalog of the device family, as a mathematical
/// value.
pub open spec fn spec_catalog() -> Seq<BlockModel> {
    Seq::new(spec_catalog_len() as nat, |k: int| spec_catalog_block(k))
}

/// Appends a block built from the given run, which the caller shows to
/// be acceptable.
fn push_block(out: &mut Vec<ParameterBlock>, parameters: Vec<Parameter>) -> (r: Result<
    (),
    CatalogError,
>)
    requires
        spec_block_ok(params_view(parameters@)),
    ensures
        r is Ok,
        final(out)@.len() == old(out)@.len() + 1,
        forall|i: int| 0 <= i < old(out)@.len() ==> #[trigger] final(out)@[i] == old(out)@[i],
        catalog_wf(catalog_view(old(out)@)) ==> catalog_wf(catalog_view(final(out)@)),
        final(out)@.last()@.parameters == params_view(parameters@),
        block_wf(final(out)@.last()@),
{
    match ParameterBlock::new(parameters) {
        Ok(b) => {
            out.push(b);
            proof {
                if catalog_wf(catalog_view(old(out)@)) {
                    assert forall|i: int|
                        0 <= i < out@.len() implies block_wf(
                        #[trigger] catalog_view(out@)[i],
                    ) by {
                        if i < old(out)@.len() {
                            assert(catalog_view(old(out)@)[i] == out@[i]@);
                        }
                    }
                }
            }
            Ok(())
        },
        Err(e) => {
            proof {
                assert(false);
            }
            Err(e)
        },
    }
}

impl Sun2000 {
    /// Builds the full register catalog: provably [`spec_catalog`],
    /// block for block, and therefore well-formed throughout.
    #[verifier::rlimit(100)]
    #[verifier::spinoff_prover]
    pub fn param_table() -> (r: Result<Vec<ParameterBlock>, CatalogError>)
        ensures
            r is Ok,
            r matches Ok(cat) ==> catalog_view(cat@) == spec_catalog() && catalog_wf(
                catalog_view(cat@),
            ),
    {
        proof {
            reveal_strlit("model_name");
            reveal_strlit("serial_number");
            reveal_strlit("product_number");
            reveal_strlit("model_id");
            reveal_strlit("nb_pv_strings");
            reveal_strlit("nb_mpp_tracks");
            reveal_strlit("rated_power");
            reveal_strlit("P_max");
            reveal_strlit("S_max");
            reveal_strlit("Q_max_out");
            reveal_strlit("Q_max_in");
            reveal_strlit("state_1");
            reveal_strlit("state_2");
            reveal_strlit("state_3");
            reveal_strlit("alarm_1");
            reveal_strlit("alarm_2");
            reveal_strlit("alarm_3");
            reveal_strlit("pv_01_voltage");
            reveal_strlit("pv_01_current");
            reveal_strlit("pv_02_voltage");
            reveal_strlit("pv_02_current");
            reveal_strlit("pv_03_voltage");
            reveal_strlit("pv_03_current");
            reveal_strlit("pv_04_voltage");
            reveal_strlit("pv_04_current");
            reveal_strlit("input_power");
            reveal_strlit("line_voltage_A_B");
            reveal_strlit("line_voltage_B_C");
            reveal_strlit("line_voltage_C_A");
            reveal_strlit("phase_A_voltage");
            reveal_strlit("phase_B_voltage");
            reveal_strlit("phase_C_voltage");
            reveal_strlit("phase_A_current");
            reveal_strlit("phase_B_current");
            reveal_strlit("phase_C_current");
            reveal_strlit("day_active_power_peak");
            reveal_strlit("active_power");
            reveal_strlit("reactive_power");
            reveal_strlit("power_factor");
            reveal_strlit("grid_frequency");
            reveal_strlit("efficiency");
            reveal_strlit("internal_temperature");
            reveal_strlit("insulation_resistance");
            reveal_strlit("device_status");
            reveal_strlit("fault_code");
            reveal_strlit("startup_time");
            reveal_strlit("shutdown_time");
            reveal_strlit("accumulated_yield_energy");
            reveal_strlit("unknown_time_1");
            reveal_strlit("daily_yield_energy");
            reveal_strlit("storage1_status");
            reveal_strlit("storage1_charge_discharge_power");
            reveal_strlit("storage1_bus_voltage");
            reveal_strlit("storage1_battery_soc");
            reveal_strlit("storage_working_mode");
            reveal_strlit("storage1_rated_charge_power");
            reveal_strlit("storage1_rated_discharge_power");
            reveal_strlit("storage1_fault_id");
            reveal_strlit("storage_current_day_charge_capacity");
            reveal_strlit("storage_current_day_discharge_capacity");
            reveal_strlit("storage1_bus_current");
            reveal_strlit("storage1_internal_temperature");
            reveal_strlit("storage1_remaining_charge_discharge_time");
            reveal_strlit("storage1_dcdc_version");
            reveal_strlit("storage1_bms_version");
            reveal_strlit("storage1_maximum_charge_power");
            reveal_strlit("storage1_maximum_discharge_power");
            reveal_strlit("storage1_sn");
            reveal_strlit("storage1_total_charge");
            reveal_strlit("storage1_total_discharge");
            reveal_strlit("power_meter_status");
            reveal_strlit("grid_A_voltage");
            reveal_strlit("grid_B_voltage");
            reveal_strlit("grid_C_voltage");
            reveal_strlit("active_grid_A_current");
            reveal_strlit("active_grid_B_current");
            reveal_strlit("active_grid_C_current");
            reveal_strlit("power_meter_active_power");
            reveal_strlit("power_meter_reactive_power");
            reveal_strlit("active_grid_power_factor");
            reveal_strlit("active_grid_frequency");
            reveal_strlit("grid_exported_energy");
            reveal_strlit("power_meter_reverse_active_power");
            reveal_strlit("power_meter_accumulated_reactive_powe");
            reveal_strlit("power_meter_meter_type");
            reveal_strlit("active_grid_A_B_voltage");
            reveal_strlit("active_grid_B_C_voltage");
            reveal_strlit("active_grid_C_A_voltage");
            reveal_strlit("active_grid_A_power");
            reveal_strlit("active_grid_B_power");
            reveal_strlit("active_grid_C_power");
            reveal_strlit("nb_optimizers");
            reveal_strlit("nb_online_optimizers");
            reveal_strlit("storage_rated_capacity");
            reveal_strlit("storage_battery_soc");
            reveal_strlit("storage_status");
            reveal_strlit("storage_bus_voltage");
            reveal_strlit("storage_bus_current");
            reveal_strlit("storage_charge_discharge_power");
            reveal_strlit("storage1_sw_version");
            reveal_strlit("storage1_battery1_sn");
            reveal_strlit("storage1_battery1_sw_version");
            reveal_strlit("storage1_battery1_working_status");
            reveal_strlit("storage1_battery1_soc");
            reveal_strlit("storage1_battery1_charge_discharge_power");
            reveal_strlit("storage1_battery1_voltage");
            reveal_strlit("storage1_battery1_current");
            reveal_strlit("storage1_battery1_total_charge");
            reveal_strlit("storage1_battery1_total_discharge");
            reveal_strlit("storage1_battery2_sn");
            reveal_strlit("storage1_battery2_sw_version");
            reveal_strlit("storage1_battery2_working_status");
            reveal_strlit("storage1_battery2_soc");
            reveal_strlit("storage1_battery2_charge_discharge_power");
            reveal_strlit("storage1_battery2_voltage");
            reveal_strlit("storage1_battery2_current");
            reveal_strlit("storage1_battery2_total_charge");
            reveal_strlit("storage1_battery2_total_discharge");
            reveal_strlit("storage1_battery3_sn");
            reveal_strlit("storage1_battery3_sw_version");
            reveal_strlit("storage1_battery3_working_status");
            reveal_strlit("storage1_battery3_soc");
            reveal_strlit("storage1_battery3_charge_discharge_power");
            reveal_strlit("storage1_battery3_voltage");
            reveal_strlit("storage1_battery3_current");
            reveal_strlit("storage1_battery3_total_charge");
            reveal_strlit("storage1_battery3_total_discharge");
            reveal_strlit("storage1_battery1_max_temperature");
            reveal_strlit("storage1_battery1_min_temperature");
            reveal_strlit("storage1_battery2_max_temperature");
            reveal_strlit("storage1_battery2_min_temperature");
            reveal_strlit("storage1_battery3_max_temperature");
            reveal_strlit("storage1_battery3_min_temperature");
            reveal_strlit("system_time");
            reveal_strlit("grid_code");
            reveal_strlit("time_zone");
            reveal_strlit("storage_time_of_use_price");
            reveal_strlit("storage_lcoe");
            reveal_strlit("storage_maximum_charging_power");
            reveal_strlit("storage_maximum_discharging_power");
            reveal_strlit("storage_power_limit_grid_tied_point");
            reveal_strlit("storage_charging_cutoff_capacity");
            reveal_strlit("storage_discharging_cutoff_capacity");
            reveal_strlit("storage_forced_charging_and_discharging_period");
            reveal_strlit("storage_forced_charging_and_discharging_power");
            reveal_strlit("active_power_control_mode");
            reveal_strlit("storage1_battery1_no");
            reveal_strlit("storage1_battery2_no");
            reveal_strlit("storage1_battery3_no");
            assert("model_name"@.len() == 10);
            assert("serial_number"@.len() == 13);
            assert("product_number"@.len() == 14);
            assert("model_id"@.len() == 8);
            assert("nb_pv_strings"@.len() == 13);
            assert("nb_mpp_tracks"@.len() == 13);
            assert("rated_power"@.len() == 11);
            assert("P_max"@.len() == 5);
            assert("S_max"@.len() == 5);
            assert("Q_max_out"@.len() == 9);
            assert("Q_max_in"@.len() == 8);
            assert("state_1"@.len() == 7);
            assert("state_2"@.len() == 7);
            assert("state_3"@.len() == 7);
            assert("alarm_1"@.len() == 7);
            assert("alarm_2"@.len() == 7);
            assert("alarm_3"@.len() == 7);
            assert("pv_01_voltage"@.len() == 13);
            assert("pv_01_current"@.len() == 13);
            assert("pv_02_voltage"@.len() == 13);
            assert("pv_02_current"@.len() == 13);
            assert("pv_03_voltage"@.len() == 13);
            assert("pv_03_current"@.len() == 13);
            assert("pv_04_voltage"@.len() == 13);
            assert("pv_04_current"@.len() == 13);
            assert("input_power"@.len() == 11);
            assert("line_voltage_A_B"@.len() == 16);
            assert("line_voltage_B_C"@.len() == 16);
            assert("line_voltage_C_A"@.len() == 16);
            assert("phase_A_voltage"@.len() == 15);
            assert("phase_B_voltage"@.len() == 15);
            assert("phase_C_voltage"@.len() == 15);
            assert("phase_A_current"@.len() == 15);
            assert("phase_B_current"@.len() == 15);
            assert("phase_C_current"@.len() == 15);
            assert("day_active_power_peak"@.len() == 21);
            assert("active_power"@.len() == 12);
            assert("reactive_power"@.len() == 14);
            assert("power_factor"@.len() == 12);
            assert("grid_frequency"@.len() == 14);
            assert("efficiency"@.len() == 10);
            assert("internal_temperature"@.len() == 20);
            assert("insulation_resistance"@.len() == 21);
            assert("device_status"@.len() == 13);
            assert("fault_code"@.len() == 10);
            assert("startup_time"@.len() == 12);
            assert("shutdown_time"@.len() == 13);
            assert("accumulated_yield_energy"@.len() == 24);
            assert("unknown_time_1"@.len() == 14);
            assert("daily_yield_energy"@.len() == 18);
            assert("storage1_status"@.len() == 15);
            assert("storage1_charge_discharge_power"@.len() == 31);
            assert("storage1_bus_voltage"@.len() == 20);
            assert("storage1_battery_soc"@.len() == 20);
            assert("storage_working_mode"@.len() == 20);
            assert("storage1_rated_charge_power"@.len() == 27);
            assert("storage1_rated_discharge_power"@.len() == 30);
            assert("storage1_fault_id"@.len() == 17);
            assert("storage_current_day_charge_capacity"@.len() == 35);
            assert("storage_current_day_discharge_capacity"@.len() == 38);
            assert("storage1_bus_current"@.len() == 20);
            assert("storage1_internal_temperature"@.len() == 29);
            assert("storage1_remaining_charge_discharge_time"@.len() == 40);
            assert("storage1_dcdc_version"@.len() == 21);
            assert("storage1_bms_version"@.len() == 20);
            assert("storage1_maximum_charge_power"@.len() == 29);
            assert("storage1_maximum_discharge_power"@.len() == 32);
            assert("storage1_sn"@.len() == 11);
            assert("storage1_total_charge"@.len() == 21);
            assert("storage1_total_discharge"@.len() == 24);
            assert("power_meter_status"@.len() == 18);
            assert("grid_A_voltage"@.len() == 14);
            assert("grid_B_voltage"@.len() == 14);
            assert("grid_C_voltage"@.len() == 14);
            assert("active_grid_A_current"@.len() == 21);
            assert("active_grid_B_current"@.len() == 21);
            assert("active_grid_C_current"@.len() == 21);
            assert("power_meter_active_power"@.len() == 24);
            assert("power_meter_reactive_power"@.len() == 26);
            assert("active_grid_power_factor"@.len() == 24);
            assert("active_grid_frequency"@.len() == 21);
            assert("grid_exported_energy"@.len() == 20);
            assert("power_meter_reverse_active_power"@.len() == 32);
            assert("power_meter_accumulated_reactive_powe"@.len() == 37);
            assert("power_meter_meter_type"@.len() == 22);
            assert("active_grid_A_B_voltage"@.len() == 23);
            assert("active_grid_B_C_voltage"@.len() == 23);
            assert("active_grid_C_A_voltage"@.len() == 23);
            assert("active_grid_A_power"@.len() == 19);
            assert("active_grid_B_power"@.len() == 19);
            assert("active_grid_C_power"@.len() == 19);
            assert("nb_optimizers"@.len() == 13);
            assert("nb_online_optimizers"@.len() == 20);
            assert("storage_rated_capacity"@.len() == 22);
            assert("storage_battery_soc"@.len() == 19);
            assert("storage_status"@.len() == 14);
            assert("storage_bus_voltage"@.len() == 19);
            assert("storage_bus_current"@.len() == 19);
            assert("storage_charge_discharge_power"@.len() == 30);
            assert("storage1_sw_version"@.len() == 19);
            assert("storage1_battery1_sn"@.len() == 20);
            assert("storage1_battery1_sw_version"@.len() == 28);
            assert("storage1_battery1_working_status"@.len() == 32);
            assert("storage1_battery1_soc"@.len() == 21);
            assert("storage1_battery1_charge_discharge_power"@.len() == 40);
            assert("storage1_battery1_voltage"@.len() == 25);
            assert("storage1_battery1_current"@.len() == 25);
            assert("storage1_battery1_total_charge"@.len() == 30);
            assert("storage1_battery1_total_discharge"@.len() == 33);
            assert("storage1_battery2_sn"@.len() == 20);
            assert("storage1_battery2_sw_version"@.len() == 28);
            assert("storage1_battery2_working_status"@.len() == 32);
            assert("storage1_battery2_soc"@.len() == 21);
            assert("storage1_battery2_charge_discharge_power"@.len() == 40);
            assert("storage1_battery2_voltage"@.len() == 25);
            assert("storage1_battery2_current"@.len() == 25);
            assert("storage1_battery2_total_charge"@.len() == 30);
            assert("storage1_battery2_total_discharge"@.len() == 33);
            assert("storage1_battery3_sn"@.len() == 20);
            assert("storage1_battery3_sw_version"@.len() == 28);
            assert("storage1_battery3_working_status"@.len() == 32);
            assert("storage1_battery3_soc"@.len() == 21);
            assert("storage1_battery3_charge_discharge_power"@.len() == 40);
            assert("storage1_battery3_voltage"@.len() == 25);
            assert("storage1_battery3_current"@.len() == 25);
            assert("storage1_battery3_total_charge"@.len() == 30);
            assert("storage1_battery3_total_discharge"@.len() == 33);
            assert("storage1_battery1_max_temperature"@.len() == 33);
            assert("storage1_battery1_min_temperature"@.len() == 33);
            assert("storage1_battery2_max_temperature"@.len() == 33);
            assert("storage1_battery2_min_temperature"@.len() == 33);
            assert("storage1_battery3_max_temperature"@.len() == 33);
            assert("storage1_battery3_min_temperature"@.len() == 33);
            assert("system_time"@.len() == 11);
            assert("grid_code"@.len() == 9);
            assert("time_zone"@.len() == 9);
            assert("storage_time_of_use_price"@.len() == 25);
            assert("storage_lcoe"@.len() == 12);
            assert("storage_maximum_charging_power"@.len() == 30);
            assert("storage_maximum_discharging_power"@.len() == 33);
            assert("storage_power_limit_grid_tied_point"@.len() == 35);
            assert("storage_charging_cutoff_capacity"@.len() == 32);
            assert("storage_discharging_cutoff_capacity"@.len() == 35);
            assert("storage_forced_charging_and_discharging_period"@.len() == 46);
            assert("storage_forced_charging_and_discharging_power"@.len() == 45);
            assert("active_power_control_mode"@.len() == 25);
            assert("storage1_battery1_no"@.len() == 20);
            assert("storage1_battery2_no"@.len() == 20);
            assert("storage1_battery3_no"@.len() == 20);
        }
        let mut cat: Vec<ParameterBlock> = Vec::new();
        let b = vec![
            Parameter::new("model_name", ParamKind::Text(None), None, None, 1, 30000, 15, true, true),
            Parameter::new("serial_number", ParamKind::Text(None), None, None, 1, 30015, 10, true, true),
            Parameter::new("product_number", ParamKind::Text(None), None, None, 1, 30025, 10, true, true),
        ];
        push_block(&mut cat, b)?;
        proof {
            assert(cat@[0]@ =~~= spec_catalog_block(0));
            assert(catalog_view(cat@) =~~= spec_catalog().take(1));
        }
        let b = vec![
            Parameter::new("model_id", ParamKind::NumberU16(None), None, None, 1, 30070, 1, true, true),
            Parameter::new("nb_pv_strings", ParamKind::NumberU16(None), None, None, 1, 30071, 1, true, true),
            Parameter::new("nb_mpp_tracks", ParamKind::NumberU16(None), None, None, 1, 30072, 1, true, true),
            Parameter::new("rated_power", ParamKind::NumberU32(None), None, Some("W"), 1, 30073, 2, true, true),
            Parameter::new("P_max", ParamKind::NumberU32(None), None, Some("W"), 1, 30075, 2, false, true),
            Parameter::new("S_max", ParamKind::NumberU32(None), None, Some("VA"), 1, 30077, 2, false, true),
            Parameter::new("Q_max_out", ParamKind::NumberI32(None), None, Some("VAr"), 1, 30079, 2, false, true),
            Parameter::new("Q_max_in", ParamKind::NumberI32(None), None, Some("VAr"), 1, 30081, 2, false, true),
        ];
        proof {
            assert("model_id"@[0] != "Q_max_in"@[0]);
            assert("nb_pv_strings"@[3] != "nb_mpp_tracks"@[3]);
            assert("P_max"@[0] != "S_max"@[0]);
        }
        push_block(&mut cat, b)?;
        proof {
            assert(cat@[1]@ =~~= spec_catalog_block(1));
            assert(catalog_view(cat@) =~~= spec_catalog().take(2));
        }
        let b = vec![
            Parameter::new("state_1", ParamKind::NumberU16(None), None, Some("state_bitfield16"), 1, 32000, 1, false, true),
        ];
        push_block(&mut cat, b)?;
        proof {
            assert(cat@[2]@ =~~= spec_catalog_block(2));
            assert(catalog_view(cat@) =~~= spec_catalog().take(3));
        }
        let b = vec![
            Parameter::new("state_2", ParamKind::NumberU16(None), None, Some("state_opt_bitfield16"), 1, 32002, 1, false, true),
            Parameter::new("state_3", ParamKind::NumberU32(None), None, Some("state_opt_bitfield32"), 1, 32003, 2, false, true),
        ];
        proof {
            assert("state_2"@[6] != "state_3"@[6]);
        }
        push_block(&mut cat, b)?;
        proof {
            assert(cat@[3]@ =~~= spec_catalog_block(3));
            assert(catalog_view(cat@) =~~= spec_catalog().take(4));
        }
        let b = vec![
            Parameter::new("alarm_1", ParamKind::NumberU16(None), None, Some("alarm_bitfield16"), 1, 32008, 1, false, true),
            Parameter::new("alarm_2", ParamKind::NumberU16(None), None, Some("alarm_bitfield16"), 1, 32009, 1, false, true),
            Parameter::new("alarm_3", ParamKind::NumberU16(None), None, Some("alarm_bitfield16"), 1, 32010, 1, false, true),
        ];
        proof {
            assert("alarm_1"@[6] != "alarm_2"@[6]);
            assert("alarm_1"@[6] != "alarm_3"@[6]);
            assert("alarm_2"@[6] != "alarm_3"@[6]);
        }
        push_block(&mut cat, b)?;
        proof {
            assert(cat@[4]@ =~~= spec_catalog_block(4));
            assert(catalog_view(cat@) =~~= spec_catalog().take(5));
        }
        let b = vec![
            Parameter::new("pv_01_voltage", ParamKind::NumberI16(None), None, Some("V"), 10, 32016, 1, false, true),
            Parameter::new("pv_01_current", ParamKind::NumberI16(None), None, Some("A"), 100, 32017, 1, false, true),
            Parameter::new("pv_02_voltage", ParamKind::NumberI16(None), None, Some("V"), 10, 32018, 1, false, true),
            Parameter::new("pv_02_current", ParamKind::NumberI16(None), None, Some("A"), 100, 32019, 1, false, true),
            Parameter::new("pv_03_voltage", ParamKind::NumberI16(None), None, Some("V"), 10, 32020, 1, false, true),
            Parameter::new("pv_03_current", ParamKind::NumberI16(None), None, Some("A"), 100, 32021, 1, false, true),
            Parameter::new("pv_04_voltage", ParamKind::NumberI16(None), None, Some("V"), 10, 32022, 1, false, true),
            Parameter::new("pv_04_current", ParamKind::NumberI16(None), None, Some("A"), 100, 32023, 1, false, true),
        ];
        proof {
            assert("pv_01_voltage"@[6] != "pv_01_current"@[6]);
            assert("pv_01_voltage"@[4] != "pv_02_voltage"@[4]);
            assert("pv_01_voltage"@[4] != "pv_02_current"@[4]);
            assert("pv_01_voltage"@[4] != "pv_03_voltage"@[4]);
            assert("pv_01_voltage"@[4] != "pv_03_current"@[4]);
            assert("pv_01_voltage"@[4] != "pv_04_voltage"@[4]);
            assert("pv_01_voltage"@[4] != "pv_04_current"@[4]);
            assert("pv_01_current"@[4] != "pv_02_voltage"@[4]);
            assert("pv_01_current"@[4] != "pv_02_current"@[4]);
            assert("pv_01_current"@[4] != "pv_03_voltage"@[4]);
            assert("pv_01_current"@[4] != "pv_03_current"@[4]);
            assert("pv_01_current"@[4] != "pv_04_voltage"@[4]);
            assert("pv_01_current"@[4] != "pv_04_current"@[4]);
            assert("pv_02_voltage"@[6] != "pv_02_current"@[6]);
            assert("pv_02_voltage"@[4] != "pv_03_voltage"@[4]);
            assert("pv_02_voltage"@[4] != "pv_03_current"@[4]);
            assert("pv_02_voltage"@[4] != "pv_04_voltage"@[4]);
            assert("pv_02_voltage"@[4] != "pv_04_current"@[4]);
            assert("pv_02_current"@[4] != "pv_03_voltage"@[4]);
            assert("pv_02_current"@[4] != "pv_03_current"@[4]);
            assert("pv_02_current"@[4] != "pv_04_voltage"@[4]);
            assert("pv_02_current"@[4] != "pv_04_current"@[4]);
            assert("pv_03_voltage"@[6] != "pv_03_current"@[6]);
            assert("pv_03_voltage"@[4] != "pv_04_voltage"@[4]);
            assert("pv_03_voltage"@[4] != "pv_04_current"@[4]);
            assert("pv_03_current"@[4] != "pv_04_voltage"@[4]);
            assert("pv_03_current"@[4] != "pv_04_current"@[4]);
            assert("pv_04_voltage"@[6] != "pv_04_current"@[6]);
        }
        push_block(&mut cat, b)?;
        proof {
            assert(cat@[5]@ =~~= spec_catalog_block(5));
            assert(catalog_view(cat@) =~~= spec_catalog().take(6));
        }
        let b = vec![
            Parameter::new("input_power", ParamKind::NumberI32(None), None, Some("W"), 1, 32064, 2, false, true),
            Parameter::new("line_voltage_A_B", ParamKind::NumberU16(None), Some("grid_voltage"), Some("V"), 10, 32066, 1, false, true),
            Parameter::new("line_voltage_B_C", ParamKind::NumberU16(None), None, Some("V"), 10, 32067, 1, false, true),
            Parameter::new("line_voltage_C_A", ParamKind::NumberU16(None), None, Some("V"), 10, 32068, 1, false, true),
            Parameter::new("phase_A_voltage", ParamKind::NumberU16(None), None, Some("V"), 10, 32069, 1, false, true),
            Parameter::new("phase_B_voltage", ParamKind::NumberU16(None), None, Some("V"), 10, 32070, 1, false, true),
            Parameter::new("phase_C_voltage", ParamKind::NumberU16(None), None, Some("V"), 10, 32071, 1, false, true),
            Parameter::new("phase_A_current", ParamKind::NumberI32(None), Some("grid_current"), Some("A"), 1000, 32072, 2, false, true),
            Parameter::new("phase_B_current", ParamKind::NumberI32(None), None, Some("A"), 1000, 32074, 2, false, true),
            Parameter::new("phase_C_current", ParamKind::NumberI32(None), None, Some("A"), 1000, 32076, 2, false, true),
            Parameter::new("day_active_power_peak", ParamKind::NumberI32(None), None, Some("W"), 1, 32078, 2, false, true),
            Parameter::new("active_power", ParamKind::NumberI32(None), None, Some("W"), 1, 32080, 2, false, true),
            Parameter::new("reactive_power", ParamKind::NumberI32(None), None, Some("VA"), 1, 32082, 2, false, true),
            Parameter::new("power_factor", ParamKind::NumberI16(None), None, None, 1000, 32084, 1, false, true),
            Parameter::new("grid_frequency", ParamKind::NumberU16(None), None, Some("Hz"), 100, 32085, 1, false, true),
            Parameter::new("efficiency", ParamKind::NumberU16(None), None, Some("%"), 100, 32086, 1, false, true),
            Parameter::new("internal_temperature", ParamKind::NumberI16(None), None, Some("°C"), 10, 32087, 1, false, true),
            Parameter::new("insulation_resistance", ParamKind::NumberU16(None), None, Some("MΩ"), 100, 32088, 1, false, true),
            Parameter::new("device_status", ParamKind::NumberU16(None), None, Some("status_enum"), 1, 32089, 1, false, true),
            Parameter::new("fault_code", ParamKind::NumberU16(None), None, None, 1, 32090, 1, false, true),
            Parameter::new("startup_time", ParamKind::NumberU32(None), None, Some("epoch"), 1, 32091, 2, false, true),
            Parameter::new("shutdown_time", ParamKind::NumberU32(None), None, Some("epoch"), 1, 32093, 2, false, true),
        ];
        proof {
            assert("line_voltage_A_B"@[13] != "line_voltage_B_C"@[13]);
            assert("line_voltage_A_B"@[13] != "line_voltage_C_A"@[13]);
            assert("line_voltage_B_C"@[13] != "line_voltage_C_A"@[13]);
            assert("phase_A_voltage"@[6] != "phase_B_voltage"@[6]);
            assert("phase_A_voltage"@[6] != "phase_C_voltage"@[6]);
            assert("phase_A_voltage"@[8] != "phase_A_current"@[8]);
            assert("phase_A_voltage"@[6] != "phase_B_current"@[6]);
            assert("phase_A_voltage"@[6] != "phase_C_current"@[6]);
            assert("phase_B_voltage"@[6] != "phase_C_voltage"@[6]);
            assert("phase_B_voltage"@[6] != "phase_A_current"@[6]);
            assert("phase_B_voltage"@[8] != "phase_B_current"@[8]);
            assert("phase_B_voltage"@[6] != "phase_C_current"@[6]);
            assert("phase_C_voltage"@[6] != "phase_A_current"@[6]);
            assert("phase_C_voltage"@[6] != "phase_B_current"@[6]);
            assert("phase_C_voltage"@[8] != "phase_C_current"@[8]);
            assert("phase_A_current"@[6] != "phase_B_current"@[6]);
            assert("phase_A_current"@[6] != "phase_C_current"@[6]);
            assert("phase_B_current"@[6] != "phase_C_current"@[6]);
            assert("day_active_power_peak"@[0] != "insulation_resistance"@[0]);
            assert("active_power"@[0] != "power_factor"@[0]);
            assert("active_power"@[0] != "startup_time"@[0]);
            assert("reactive_power"@[0] != "grid_frequency"@[0]);
            assert("power_factor"@[0] != "startup_time"@[0]);
            assert("efficiency"@[0] != "fault_code"@[0]);
            assert("device_status"@[0] != "shutdown_time"@[0]);
        }
        push_block(&mut cat, b)?;
        proof {
            assert(cat@[6]@ =~~= spec_catalog_block(6));
            assert(catalog_view(cat@) =~~= spec_catalog().take(7));
        }
        let b = vec![
            Parameter::new("accumulated_yield_energy", ParamKind::NumberU32(None), None, Some("kWh"), 100, 32106, 2, false, true),
        ];
        push_block(&mut cat, b)?;
        proof {
            assert(cat@[7]@ =~~= spec_catalog_block(7));
            assert(catalog_view(cat@) =~~= spec_catalog().take(8));
        }
        let b = vec![
            Parameter::new("unknown_time_1", ParamKind::NumberU32(None), None, Some("epoch"), 1, 32110, 2, false, true),
        ];
        push_block(&mut cat, b)?;
        proof {
            assert(cat@[8]@ =~~= spec_catalog_block(8));
            assert(catalog_view(cat@) =~~= spec_catalog().take(9));
        }
        let b = vec![
            Parameter::new("daily_yield_energy", ParamKind::NumberU32(None), None, Some("kWh"), 100, 32114, 2, true, true),
        ];
        push_block(&mut cat, b)?;
        proof {
            assert(cat@[9]@ =~~= spec_catalog_block(9));
            assert(catalog_view(cat@) =~~= spec_catalog().take(10));
        }
        let b = vec![
            Parameter::new("storage1_status", ParamKind::NumberI16(None), None, Some("storage_status_enum"), 1, 37000, 1, false, true),
            Parameter::new("storage1_charge_discharge_power", ParamKind::NumberI32(None), None, Some("W"), 1, 37001, 2, false, true),
            Parameter::new("storage1_bus_voltage", ParamKind::NumberU16(None), None, Some("V"), 10, 37003, 1, false, true),
            Parameter::new("storage1_battery_soc", ParamKind::NumberU16(None), None, Some("%"), 10, 37004, 1, false, true),
        ];
        proof {
            assert("storage1_bus_voltage"@[10] != "storage1_battery_soc"@[10]);
        }
        push_block(&mut cat, b)?;
        proof {
            assert(cat@[10]@ =~~= spec_catalog_block(10));
            assert(catalog_view(cat@) =~~= spec_catalog().take(11));
        }
        let b = vec![
            Parameter::new("storage_working_mode", ParamKind::NumberU16(None), None, Some("storage_working_mode_enum"), 1, 37006, 1, false, true),
            Parameter::new("storage1_rated_charge_power", ParamKind::NumberU32(None), None, Some("W"), 1, 37007, 2, false, true),
            Parameter::new("storage1_rated_discharge_power", ParamKind::NumberU32(None), None, Some("W"), 1, 37009, 2, false, true),
        ];
        push_block(&mut cat, b)?;
        proof {
            assert(cat@[11]@ =~~= spec_catalog_block(11));
            assert(catalog_view(cat@) =~~= spec_catalog().take(12));
        }
        let b = vec![
            Parameter::new("storage1_fault_id", ParamKind::NumberU16(None), None, None, 1, 37014, 1, false, true),
            Parameter::new("storage_current_day_charge_capacity", ParamKind::NumberU32(None), None, Some("kWh"), 100, 37015, 2, false, true),
            Parameter::new("storage_current_day_discharge_capacity", ParamKind::NumberU32(None), None, Some("kWh"), 100, 37017, 2, false, true),
        ];
        push_block(&mut cat, b)?;
        proof {
            assert(cat@[12]@ =~~= spec_catalog_block(12));
            assert(catalog_view(cat@) =~~= spec_catalog().take(13));
        }
        let b = vec![
            Parameter::new("storage1_bus_current", ParamKind::NumberI16(None), None, Some("A"), 10, 37021, 1, false, true),
            Parameter::new("storage1_internal_temperature", ParamKind::NumberI16(None), None, Some("°C"), 10, 37022, 1, false, true),
        ];
        push_block(&mut cat, b)?;
        proof {
            assert(cat@[13]@ =~~= spec_catalog_block(13));
            assert(catalog_view(cat@) =~~= spec_catalog().take(14));
        }
        let b = vec![
            Parameter::new("storage1_remaining_charge_discharge_time", ParamKind::NumberU16(None), None, Some("min"), 1, 37025, 1, false, true),
            Parameter::new("storage1_dcdc_version", ParamKind::Text(None), None, None, 1, 37026, 10, false, true),
            Parameter::new("storage1_bms_version", ParamKind::Text(None), None, None, 1, 37036, 10, false, true),
            Parameter::new("storage1_maximum_charge_power", ParamKind::NumberU32(None), None, Some("W"), 1, 37046, 2, false, true),
            Parameter::new("storage1_maximum_discharge_power", ParamKind::NumberU32(None), None, Some("W"), 1, 37048, 2, false, true),
        ];
        push_block(&mut cat, b)?;
        proof {
            assert(cat@[14]@ =~~= spec_catalog_block(14));
            assert(catalog_view(cat@) =~~= spec_catalog().take(15));
        }
        let b = vec![
            Parameter::new("storage1_sn", ParamKind::Text(None), None, None, 1, 37052, 10, false, true),
        ];
        push_block(&mut cat, b)?;
        proof {
            assert(cat@[15]@ =~~= spec_catalog_block(15));
            assert(catalog_view(cat@) =~~= spec_catalog().take(16));
        }
        let b = vec![
            Parameter::new("storage1_total_charge", ParamKind::NumberU32(None), None, Some("kWh"), 100, 37066, 2, false, true),
            Parameter::new("storage1_total_discharge", ParamKind::NumberU32(None), None, Some("kWh"), 100, 37068, 2, false, true),
        ];
        push_block(&mut cat, b)?;
        proof {
            assert(cat@[16]@ =~~= spec_catalog_block(16));
            assert(catalog_view(cat@) =~~= spec_catalog().take(17));
        }
        let b = vec![
            Parameter::new("power_meter_status", ParamKind::NumberU16(None), None, None, 1, 37100, 1, false, true),
            Parameter::new("grid_A_voltage", ParamKind::NumberI32(None), None, Some("V"), 10, 37101, 2, false, true),
            Parameter::new("grid_B_voltage", ParamKind::NumberI32(None), None, Some("V"), 10, 37103, 2, false, true),
            Parameter::new("grid_C_voltage", ParamKind::NumberI32(None), None, Some("V"), 10, 37105, 2, false, true),
            Parameter::new("active_grid_A_current", ParamKind::NumberI32(None), None, Some("I"), 100, 37107, 2, false, true),
            Parameter::new("active_grid_B_current", ParamKind::NumberI32(None), None, Some("I"), 100, 37109, 2, false, true),
            Parameter::new("active_grid_C_current", ParamKind::NumberI32(None), None, Some("I"), 100, 37111, 2, false, true),
            Parameter::new("power_meter_active_power", ParamKind::NumberI32(None), None, Some("W"), 1, 37113, 2, false, true),
            Parameter::new("power_meter_reactive_power", ParamKind::NumberI32(None), None, Some("Var"), 1, 37115, 2, false, true),
            Parameter::new("active_grid_power_factor", ParamKind::NumberI16(None), None, None, 1000, 37117, 1, false, true),
            Parameter::new("active_grid_frequency", ParamKind::NumberI16(None), None, Some("Hz"), 100, 37118, 1, false, true),
            Parameter::new("grid_exported_energy", ParamKind::NumberI32(None), None, Some("kWh"), 100, 37119, 2, false, true),
            Parameter::new("power_meter_reverse_active_power", ParamKind::NumberI32(None), None, Some("kWh"), 100, 37121, 2, false, true),
            Parameter::new("power_meter_accumulated_reactive_powe", ParamKind::NumberI32(None), None, Some("kVarH"), 100, 37123, 2, false, true),
            Parameter::new("power_meter_meter_type", ParamKind::NumberU16(None), None, None, 1, 37125, 1, false, true),
            Parameter::new("active_grid_A_B_voltage", ParamKind::NumberI32(None), None, Some("V"), 10, 37126, 2, false, true),
            Parameter::new("active_grid_B_C_voltage", ParamKind::NumberI32(None), None, Some("V"), 10, 37128, 2, false, true),
            Parameter::new("active_grid_C_A_voltage", ParamKind::NumberI32(None), None, Some("V"), 10, 37130, 2, false, true),
            Parameter::new("active_grid_A_power", ParamKind::NumberI32(None), None, Some("W"), 1, 37132, 2, false, true),
            Parameter::new("active_grid_B_power", ParamKind::NumberI32(None), None, Some("W"), 1, 37134, 2, false, true),
            Parameter::new("active_grid_C_power", ParamKind::NumberI32(None), None, Some("W"), 1, 37136, 2, false, true),
        ];
        proof {
            assert("grid_A_voltage"@[5] != "grid_B_voltage"@[5]);
            assert("grid_A_voltage"@[5] != "grid_C_voltage"@[5]);
            assert("grid_B_voltage"@[5] != "grid_C_voltage"@[5]);
            assert("active_grid_A_current"@[12] != "active_grid_B_current"@[12]);
            assert("active_grid_A_current"@[12] != "active_grid_C_current"@[12]);
            assert("active_grid_A_current"@[12] != "active_grid_frequency"@[12]);
            assert("active_grid_B_current"@[12] != "active_grid_C_current"@[12]);
            assert("active_grid_B_current"@[12] != "active_grid_frequency"@[12]);
            assert("active_grid_C_current"@[12] != "active_grid_frequency"@[12]);
            assert("power_meter_active_power"@[0] != "active_grid_power_factor"@[0]);
            assert("active_grid_A_B_voltage"@[12] != "active_grid_B_C_voltage"@[12]);
            assert("active_grid_A_B_voltage"@[12] != "active_grid_C_A_voltage"@[12]);
            assert("active_grid_B_C_voltage"@[12] != "active_grid_C_A_voltage"@[12]);
            assert("active_grid_A_power"@[12] != "active_grid_B_power"@[12]);
            assert("active_grid_A_power"@[12] != "active_grid_C_power"@[12]);
            assert("active_grid_B_power"@[12] != "active_grid_C_power"@[12]);
        }
        push_block(&mut cat, b)?;
        proof {
            assert(cat@[17]@ =~~= spec_catalog_block(17));
            assert(catalog_view(cat@) =~~= spec_catalog().take(18));
        }
        let b = vec![
            Parameter::new("nb_optimizers", ParamKind::NumberU16(None), None, None, 1, 37200, 1, false, false),
            Parameter::new("nb_online_optimizers", ParamKind::NumberU16(None), None, None, 1, 37201, 1, false, true),
        ];
        push_block(&mut cat, b)?;
        proof {
            assert(cat@[18]@ =~~= spec_catalog_block(18));
            assert(catalog_view(cat@) =~~= spec_catalog().take(19));
        }
        let b = vec![
            Parameter::new("storage_rated_capacity", ParamKind::NumberU32(None), None, Some("Wh"), 1, 37758, 2, false, true),
            Parameter::new("storage_battery_soc", ParamKind::NumberU16(None), None, Some("%"), 10, 37760, 1, false, true),
        ];
        push_block(&mut cat, b)?;
        proof {
            assert(cat@[19]@ =~~= spec_catalog_block(19));
            assert(catalog_view(cat@) =~~= spec_catalog().take(20));
        }
        let b = vec![
            Parameter::new("storage_status", ParamKind::NumberU16(None), None, Some("storage_status_enum"), 1, 37762, 1, false, true),
            Parameter::new("storage_bus_voltage", ParamKind::NumberU16(None), None, Some("V"), 10, 37763, 1, false, true),
            Parameter::new("storage_bus_current", ParamKind::NumberI16(None), None, Some("A"), 10, 37764, 1, false, true),
            Parameter::new("storage_charge_discharge_power", ParamKind::NumberI32(None), None, Some("W"), 1, 37765, 2, false, true),
        ];
        proof {
            assert("storage_bus_voltage"@[12] != "storage_bus_current"@[12]);
        }
        push_block(&mut cat, b)?;
        proof {
            assert(cat@[20]@ =~~= spec_catalog_block(20));
            assert(catalog_view(cat@) =~~= spec_catalog().take(21));
        }
        let b = vec![
            Parameter::new("storage_current_day_charge_capacity", ParamKind::NumberU32(None), None, Some("kWh"), 100, 37784, 2, false, true),
            Parameter::new("storage_current_day_discharge_capacity", ParamKind::NumberU32(None), None, Some("kWh"), 100, 37786, 2, false, true),
        ];
        push_block(&mut cat, b)?;
        proof {
            assert(cat@[21]@ =~~= spec_catalog_block(21));
            assert(catalog_view(cat@) =~~= spec_catalog().take(22));
        }
        let b = vec![
            Parameter::new("storage1_sw_version", ParamKind::Text(None), None, None, 1, 37814, 15, false, true),
        ];
        push_block(&mut cat, b)?;
        proof {
            assert(cat@[22]@ =~~= spec_catalog_block(22));
            assert(catalog_view(cat@) =~~= spec_catalog().take(23));
        }
        let b = vec![
            Parameter::new("storage1_battery1_sn", ParamKind::Text(None), None, None, 1, 38200, 10, false, true),
            Parameter::new("storage1_battery1_sw_version", ParamKind::Text(None), None, None, 1, 38210, 15, false, true),
        ];
        push_block(&mut cat, b)?;
        proof {
            assert(cat@[23]@ =~~= spec_catalog_block(23));
            assert(catalog_view(cat@) =~~= spec_catalog().take(24));
        }
        let b = vec![
            Parameter::new("storage1_battery1_working_status", ParamKind::NumberU16(None), None, Some("storage_status_enum"), 1, 38228, 1, false, true),
            Parameter::new("storage1_battery1_soc", ParamKind::NumberU16(None), None, Some("%"), 10, 38229, 1, false, true),
        ];
        push_block(&mut cat, b)?;
        proof {
            assert(cat@[24]@ =~~= spec_catalog_block(24));
            assert(catalog_view(cat@) =~~= spec_catalog().take(25));
        }
        let b = vec![
            Parameter::new("storage1_battery1_charge_discharge_power", ParamKind::NumberI32(None), None, Some("kW"), 1, 38233, 2, false, true),
            Parameter::new("storage1_battery1_voltage", ParamKind::NumberU16(None), None, Some("V"), 10, 38235, 1, false, true),
            Parameter::new("storage1_battery1_current", ParamKind::NumberI16(None), None, Some("A"), 10, 38236, 1, false, true),
        ];
        proof {
            assert("storage1_battery1_voltage"@[18] != "storage1_battery1_current"@[18]);
        }
        push_block(&mut cat, b)?;
        proof {
            assert(cat@[25]@ =~~= spec_catalog_block(25));
            assert(catalog_view(cat@) =~~= spec_catalog().take(26));
        }
        let b = vec![
            Parameter::new("storage1_battery1_total_charge", ParamKind::NumberU32(None), None, Some("kWh"), 100, 38238, 2, false, true),
            Parameter::new("storage1_battery1_total_discharge", ParamKind::NumberU32(None), None, Some("kWh"), 100, 38240, 2, false, true),
            Parameter::new("storage1_battery2_sn", ParamKind::Text(None), None, None, 1, 38242, 10, false, true),
            Parameter::new("storage1_battery2_sw_version", ParamKind::Text(None), None, None, 1, 38252, 15, false, true),
        ];
        push_block(&mut cat, b)?;
        proof {
            assert(cat@[26]@ =~~= spec_catalog_block(26));
            assert(catalog_view(cat@) =~~= spec_catalog().take(27));
        }
        let b = vec![
            Parameter::new("storage1_battery2_working_status", ParamKind::NumberU16(None), None, Some("storage_status_enum"), 1, 38270, 1, false, true),
            Parameter::new("storage1_battery2_soc", ParamKind::NumberU16(None), None, Some("%"), 10, 38271, 1, false, true),
        ];
        push_block(&mut cat, b)?;
        proof {
            assert(cat@[27]@ =~~= spec_catalog_block(27));
            assert(catalog_view(cat@) =~~= spec_catalog().take(28));
        }
        let b = vec![
            Parameter::new("storage1_battery2_charge_discharge_power", ParamKind::NumberI32(None), None, Some("kW"), 1, 38275, 2, false, true),
            Parameter::new("storage1_battery2_voltage", ParamKind::NumberU16(None), None, Some("V"), 10, 38277, 1, false, true),
            Parameter::new("storage1_battery2_current", ParamKind::NumberI16(None), None, Some("A"), 10, 38278, 1, false, true),
        ];
        proof {
            assert("storage1_battery2_voltage"@[18] != "storage1_battery2_current"@[18]);
        }
        push_block(&mut cat, b)?;
        proof {
            assert(cat@[28]@ =~~= spec_catalog_block(28));
            assert(catalog_view(cat@) =~~= spec_catalog().take(29));
        }
        let b = vec![
            Parameter::new("storage1_battery2_total_charge", ParamKind::NumberU32(None), None, Some("kWh"), 100, 38280, 2, false, true),
            Parameter::new("storage1_battery2_total_discharge", ParamKind::NumberU32(None), None, Some("kWh"), 100, 38282, 2, false, true),
            Parameter::new("storage1_battery3_sn", ParamKind::Text(None), None, None, 1, 38284, 10, false, true),
            Parameter::new("storage1_battery3_sw_version", ParamKind::Text(None), None, None, 1, 38294, 15, false, true),
        ];
        push_block(&mut cat, b)?;
        proof {
            assert(cat@[29]@ =~~= spec_catalog_block(29));
            assert(catalog_view(cat@) =~~= spec_catalog().take(30));
        }
        let b = vec![
            Parameter::new("storage1_battery3_working_status", ParamKind::NumberU16(None), None, Some("storage_status_enum"), 1, 38312, 1, false, true),
            Parameter::new("storage1_battery3_soc", ParamKind::NumberU16(None), None, Some("%"), 10, 38313, 1, false, true),
        ];
        push_block(&mut cat, b)?;
        proof {
            assert(cat@[30]@ =~~= spec_catalog_block(30));
            assert(catalog_view(cat@) =~~= spec_catalog().take(31));
        }
        let b = vec![
            Parameter::new("storage1_battery3_charge_discharge_power", ParamKind::NumberI32(None), None, Some("kW"), 1, 38317, 2, false, true),
            Parameter::new("storage1_battery3_voltage", ParamKind::NumberU16(None), None, Some("V"), 10, 38319, 1, false, true),
            Parameter::new("storage1_battery3_current", ParamKind::NumberI16(None), None, Some("A"), 10, 38320, 1, false, true),
        ];
        proof {
            assert("storage1_battery3_voltage"@[18] != "storage1_battery3_current"@[18]);
        }
        push_block(&mut cat, b)?;
        proof {
            assert(cat@[31]@ =~~= spec_catalog_block(31));
            assert(catalog_view(cat@) =~~= spec_catalog().take(32));
        }
        let b = vec![
            Parameter::new("storage1_battery3_total_charge", ParamKind::NumberU32(None), None, Some("kWh"), 100, 38322, 2, false, true),
            Parameter::new("storage1_battery3_total_discharge", ParamKind::NumberU32(None), None, Some("kWh"), 100, 38324, 2, false, true),
        ];
        push_block(&mut cat, b)?;
        proof {
            assert(cat@[32]@ =~~= spec_catalog_block(32));
            assert(catalog_view(cat@) =~~= spec_catalog().take(33));
        }
        let b = vec![
            Parameter::new("storage1_battery1_max_temperature", ParamKind::NumberI16(None), None, Some("°C"), 10, 38452, 1, false, true),
            Parameter::new("storage1_battery1_min_temperature", ParamKind::NumberI16(None), None, Some("°C"), 10, 38453, 1, false, true),
            Parameter::new("storage1_battery2_max_temperature", ParamKind::NumberI16(None), None, Some("°C"), 10, 38454, 1, false, true),
            Parameter::new("storage1_battery2_min_temperature", ParamKind::NumberI16(None), None, Some("°C"), 10, 38455, 1, false, true),
            Parameter::new("storage1_battery3_max_temperature", ParamKind::NumberI16(None), None, Some("°C"), 10, 38456, 1, false, true),
            Parameter::new("storage1_battery3_min_temperature", ParamKind::NumberI16(None), None, Some("°C"), 10, 38457, 1, false, true),
        ];
        proof {
            assert("storage1_battery1_max_temperature"@[19] != "storage1_battery1_min_temperature"@[19]);
            assert("storage1_battery1_max_temperature"@[16] != "storage1_battery2_max_temperature"@[16]);
            assert("storage1_battery1_max_temperature"@[16] != "storage1_battery2_min_temperature"@[16]);
            assert("storage1_battery1_max_temperature"@[16] != "storage1_battery3_max_temperature"@[16]);
            assert("storage1_battery1_max_temperature"@[16] != "storage1_battery3_min_temperature"@[16]);
            assert("storage1_battery1_min_temperature"@[16] != "storage1_battery2_max_temperature"@[16]);
            assert("storage1_battery1_min_temperature"@[16] != "storage1_battery2_min_temperature"@[16]);
            assert("storage1_battery1_min_temperature"@[16] != "storage1_battery3_max_temperature"@[16]);
            assert("storage1_battery1_min_temperature"@[16] != "storage1_battery3_min_temperature"@[16]);
            assert("storage1_battery2_max_temperature"@[19] != "storage1_battery2_min_temperature"@[19]);
            assert("storage1_battery2_max_temperature"@[16] != "storage1_battery3_max_temperature"@[16]);
            assert("storage1_battery2_max_temperature"@[16] != "storage1_battery3_min_temperature"@[16]);
            assert("storage1_battery2_min_temperature"@[16] != "storage1_battery3_max_temperature"@[16]);
            assert("storage1_battery2_min_temperature"@[16] != "storage1_battery3_min_temperature"@[16]);
            assert("storage1_battery3_max_temperature"@[19] != "storage1_battery3_min_temperature"@[19]);
        }
        push_block(&mut cat, b)?;
        proof {
            assert(cat@[33]@ =~~= spec_catalog_block(33));
            assert(catalog_view(cat@) =~~= spec_catalog().take(34));
        }
        let b = vec![
            Parameter::new("system_time", ParamKind::NumberU32(None), None, Some("epoch"), 1, 40000, 2, false, true),
        ];
        push_block(&mut cat, b)?;
        proof {
            assert(cat@[34]@ =~~= spec_catalog_block(34));
            assert(catalog_view(cat@) =~~= spec_catalog().take(35));
        }
        let b = vec![
            Parameter::new("grid_code", ParamKind::NumberU16(None), None, Some("grid_enum"), 1, 42000, 1, false, true),
        ];
        push_block(&mut cat, b)?;
        proof {
            assert(cat@[35]@ =~~= spec_catalog_block(35));
            assert(catalog_view(cat@) =~~= spec_catalog().take(36));
        }
        let b = vec![
            Parameter::new("time_zone", ParamKind::NumberI16(None), None, Some("min"), 1, 43006, 1, false, true),
        ];
        push_block(&mut cat, b)?;
        proof {
            assert(cat@[36]@ =~~= spec_catalog_block(36));
            assert(catalog_view(cat@) =~~= spec_catalog().take(37));
        }
        let b = vec![
            Parameter::new("storage_working_mode", ParamKind::NumberI16(None), None, Some("storage_working_mode_enum"), 1, 47004, 1, false, true),
        ];
        push_block(&mut cat, b)?;
        proof {
            assert(cat@[37]@ =~~= spec_catalog_block(37));
            assert(catalog_view(cat@) =~~= spec_catalog().take(38));
        }
        let b = vec![
            Parameter::new("storage_time_of_use_price", ParamKind::NumberI16(None), None, Some("storage_tou_price_enum"), 1, 47027, 1, false, true),
        ];
        push_block(&mut cat, b)?;
        proof {
            assert(cat@[38]@ =~~= spec_catalog_block(38));
            assert(catalog_view(cat@) =~~= spec_catalog().take(39));
        }
        let b = vec![
            Parameter::new("storage_lcoe", ParamKind::NumberU32(None), None, None, 1000, 47069, 2, false, true),
        ];
        push_block(&mut cat, b)?;
        proof {
            assert(cat@[39]@ =~~= spec_catalog_block(39));
            assert(catalog_view(cat@) =~~= spec_catalog().take(40));
        }
        let b = vec![
            Parameter::new("storage_maximum_charging_power", ParamKind::NumberU32(None), None, Some("W"), 1, 47075, 2, false, true),
            Parameter::new("storage_maximum_discharging_power", ParamKind::NumberU32(None), None, Some("W"), 1, 47077, 2, false, true),
            Parameter::new("storage_power_limit_grid_tied_point", ParamKind::NumberI32(None), None, Some("W"), 1, 47079, 2, false, true),
            Parameter::new("storage_charging_cutoff_capacity", ParamKind::NumberU16(None), None, Some("%"), 10, 47081, 1, false, true),
            Parameter::new("storage_discharging_cutoff_capacity", ParamKind::NumberU16(None), None, Some("%"), 10, 47082, 1, false, true),
            Parameter::new("storage_forced_charging_and_discharging_period", ParamKind::NumberU16(None), None, Some("min"), 1, 47083, 1, false, true),
            Parameter::new("storage_forced_charging_and_discharging_power", ParamKind::NumberI32(None), None, Some("min"), 1, 47084, 2, false, true),
            Parameter::new("storage_working_mode", ParamKind::NumberU16(None), None, Some("working_mode"), 1, 47086, 1, false, true),
        ];
        proof {
            assert("storage_power_limit_grid_tied_point"@[8] != "storage_discharging_cutoff_capacity"@[8]);
        }
        push_block(&mut cat, b)?;
        proof {
            assert(cat@[40]@ =~~= spec_catalog_block(40));
            assert(catalog_view(cat@) =~~= spec_catalog().take(41));
        }
        let b = vec![
            Parameter::new("active_power_control_mode", ParamKind::NumberU16(None), None, Some("active_power_control_mode_enum"), 1, 47415, 1, false, true),
        ];
        push_block(&mut cat, b)?;
        proof {
            assert(cat@[41]@ =~~= spec_catalog_block(41));
            assert(catalog_view(cat@) =~~= spec_catalog().take(42));
        }
        let b = vec![
            Parameter::new("storage1_battery1_no", ParamKind::NumberU16(None), None, None, 1, 47750, 1, false, true),
            Parameter::new("storage1_battery2_no", ParamKind::NumberU16(None), None, None, 1, 47751, 1, false, true),
            Parameter::new("storage1_battery3_no", ParamKind::NumberU16(None), None, None, 1, 47752, 1, false, true),
        ];
        proof {
            assert("storage1_battery1_no"@[16] != "storage1_battery2_no"@[16]);
            assert("storage1_battery1_no"@[16] != "storage1_battery3_no"@[16]);
            assert("storage1_battery2_no"@[16] != "storage1_battery3_no"@[16]);
        }
        push_block(&mut cat, b)?;
        proof {
            assert(cat@[42]@ =~~= spec_catalog_block(42));
            assert(catalog_view(cat@) =~~= spec_catalog().take(43));
        }
        proof {
            assert(spec_catalog().take(spec_catalog_len()) =~= spec_catalog());
        }
        Ok(cat)
    }
}

} // verus!
