use crate::field::{Field, FieldType};
use vstd::prelude::*;

verus! {

/// Length in bytes of every frame.
pub const MAGIC_LENGTH: usize = 292;

/// Value of the first byte of every frame.
pub const MAGIC_HEADER: u8 = 0xa5;

/// First byte of the device serial number.
pub const SERIAL_START: usize = 11;

/// One past the last byte of the device serial number.
pub const SERIAL_END: usize = 21;

/// First byte of the timestamp.
pub const DATETIME_OFFSET: usize = 37;

/// Number of bytes of every raw field value, stored big-endian.
pub const RAW_WIDTH: usize = 2;

/// Kind, offset, group, name and id of each registry entry, in order.
pub open spec fn registry() -> Seq<(FieldType, usize, Seq<char>, Seq<char>, Seq<char>)> {
    seq![
        (FieldType::Energy, 70usize, "Battery"@, "Total charge"@, "battery_charge_total"@),
        (FieldType::Energy, 74usize, "Battery"@, "Total discharge"@, "battery_discharge_total"@),
        (FieldType::Energy, 82usize, "Grid"@, "Total import"@, "grid_import_total"@),
        (FieldType::Energy, 88usize, "Grid"@, "Total export"@, "grid_export_total"@),
        (FieldType::Frequency, 84usize, "Grid"@, "Frequency"@, "grid_frequency"@),
        (FieldType::Energy, 96usize, "Load"@, "Total consumption"@, "load_consumption_total"@),
        (FieldType::Temperature, 106usize, "Inverter"@, "DC Temperature"@, "inverter_temperature_dc"@),
        (FieldType::Temperature, 108usize, "Inverter"@, "AC Temperature"@, "inverter_temperature_ac"@),
        (FieldType::Energy, 118usize, "PV"@, "Total production"@, "pv_production_total"@),
        (FieldType::Charge, 140usize, "Battery"@, "Capacity"@, "battery_capacity"@),
        (FieldType::Voltage, 176usize, "Grid"@, "Voltage"@, "grid_voltage"@),
        (FieldType::Voltage, 184usize, "Load"@, "Voltage"@, "load_voltage"@),
        (FieldType::Power, 216usize, "Grid"@, "Power"@, "grid_power"@),
        (FieldType::Power, 228usize, "Load"@, "Power"@, "load_power"@),
        (FieldType::Temperature, 240usize, "Battery"@, "Temperature"@, "battery_temperature"@),
        (FieldType::StateOfCharge, 244usize, "Battery"@, "SOC"@, "battery_soc"@),
        (FieldType::Power, 248usize, "PV"@, "Power"@, "pv_power"@),
        (FieldType::Power, 256usize, "Battery"@, "Power"@, "battery_power"@),
        (FieldType::Current, 258usize, "Battery"@, "Current"@, "battery_current"@),
        (FieldType::Frequency, 260usize, "Load"@, "Frequency"@, "load_frequency"@),
    ]
}

/// `f` is the field that the registry describes at `e`.
pub open spec fn matches_entry(
    f: Field,
    e: (FieldType, usize, Seq<char>, Seq<char>, Seq<char>),
) -> bool {
    f.built(e.0, e.1, e.2, e.3, e.4)
}

/// The field registry: every measurement that a frame carries, in a fixed order.
pub fn fields() -> (r: Vec<Field<'static>>)
    ensures
        r@.len() == registry().len(),
        forall|i: int| 0 <= i < r@.len() ==> matches_entry(#[trigger] r@[i], registry()[i]),
        forall|i: int| 0 <= i < r@.len() ==> #[trigger] r@[i].offset + RAW_WIDTH <= MAGIC_LENGTH,
        forall|i: int, j: int|
            0 <= i < r@.len() && 0 <= j < r@.len() && i != j ==> #[trigger] r@[i].id@
                != #[trigger] r@[j].id@,
{
    proof {
        lemma_registry_offsets_in_frame();
        lemma_registry_ids_unique();
    }
    let mut v: Vec<Field<'static>> = Vec::new();
    v.push(Field::energy(70, "Battery", "Total charge", "battery_charge_total"));
    v.push(Field::energy(74, "Battery", "Total discharge", "battery_discharge_total"));
    v.push(Field::energy(82, "Grid", "Total import", "grid_import_total"));
    v.push(Field::energy(88, "Grid", "Total export", "grid_export_total"));
    v.push(Field::frequency(84, "Grid", "grid_frequency"));
    v.push(Field::energy(96, "Load", "Total consumption", "load_consumption_total"));
    v.push(Field::temperature_name(106, "Inverter", "DC Temperature", "inverter_temperature_dc"));
    v.push(Field::temperature_name(108, "Inverter", "AC Temperature", "inverter_temperature_ac"));
    v.push(Field::energy(118, "PV", "Total production", "pv_production_total"));
    v.push(Field::charge(140, "Battery", "Capacity", "battery_capacity"));
    v.push(Field::voltage(176, "Grid", "grid_voltage"));
    v.push(Field::voltage(184, "Load", "load_voltage"));
    v.push(Field::power(216, "Grid", "grid_power"));
    v.push(Field::power(228, "Load", "load_power"));
    v.push(Field::temperature(240, "Battery", "battery_temperature"));
    v.push(Field::state_of_charge(244, "Battery", "battery_soc"));
    v.push(Field::power(248, "PV", "pv_power"));
    v.push(Field::power(256, "Battery", "battery_power"));
    v.push(Field::current(258, "Battery", "battery_current"));
    v.push(Field::frequency(260, "Load", "load_frequency"));
    assert forall|i: int, j: int|
        0 <= i < v@.len() && 0 <= j < v@.len() && i != j implies #[trigger] v@[i].id@
            != #[trigger] v@[j].id@ by {
        assert(registry()[i].4 != registry()[j].4);
    }
    v
}

/// Every registry field's raw value lies inside a frame.
pub proof fn lemma_registry_offsets_in_frame()
    ensures
        forall|i: int|
            0 <= i < registry().len() ==> #[trigger] registry()[i].1 + RAW_WIDTH
                <= MAGIC_LENGTH,
{
}

/// A few characters of an id that already tell the registry's ids apart.
spec fn id_key(s: Seq<char>) -> (int, char, char, char) {
    (s.len() as int, s[0], s[5], s[s.len() - 2])
}

/// No two registry entries share an id.
pub proof fn lemma_registry_ids_unique()
    ensures
        forall|i: int, j: int|
            0 <= i < registry().len() && 0 <= j < registry().len() && i != j
                ==> #[trigger] registry()[i].4 != #[trigger] registry()[j].4,
{
    reveal_strlit("battery_charge_total");
    reveal_strlit("battery_discharge_total");
    reveal_strlit("grid_import_total");
    reveal_strlit("grid_export_total");
    reveal_strlit("grid_frequency");
    reveal_strlit("load_consumption_total");
    reveal_strlit("inverter_temperature_dc");
    reveal_strlit("inverter_temperature_ac");
    reveal_strlit("pv_production_total");
    reveal_strlit("battery_capacity");
    reveal_strlit("grid_voltage");
    reveal_strlit("load_voltage");
    reveal_strlit("grid_power");
    reveal_strlit("load_power");
    reveal_strlit("battery_temperature");
    reveal_strlit("battery_soc");
    reveal_strlit("pv_power");
    reveal_strlit("battery_power");
    reveal_strlit("battery_current");
    reveal_strlit("load_frequency");
    assert(id_key(registry()[0].4) == (20int, 'b', 'r', 'a'));
    assert(id_key(registry()[1].4) == (23int, 'b', 'r', 'a'));
    assert(id_key(registry()[2].4) == (17int, 'g', 'i', 'a'));
    assert(id_key(registry()[3].4) == (17int, 'g', 'e', 'a'));
    assert(id_key(registry()[4].4) == (14int, 'g', 'f', 'c'));
    assert(id_key(registry()[5].4) == (22int, 'l', 'c', 'a'));
    assert(id_key(registry()[6].4) == (23int, 'i', 't', 'd'));
    assert(id_key(registry()[7].4) == (23int, 'i', 't', 'a'));
    assert(id_key(registry()[8].4) == (19int, 'p', 'o', 'a'));
    assert(id_key(registry()[9].4) == (16int, 'b', 'r', 't'));
    assert(id_key(registry()[10].4) == (12int, 'g', 'v', 'g'));
    assert(id_key(registry()[11].4) == (12int, 'l', 'v', 'g'));
    assert(id_key(registry()[12].4) == (10int, 'g', 'p', 'e'));
    assert(id_key(registry()[13].4) == (10int, 'l', 'p', 'e'));
    assert(id_key(registry()[14].4) == (19int, 'b', 'r', 'r'));
    assert(id_key(registry()[15].4) == (11int, 'b', 'r', 'o'));
    assert(id_key(registry()[16].4) == (8int, 'p', 'w', 'e'));
    assert(id_key(registry()[17].4) == (13int, 'b', 'r', 'e'));
    assert(id_key(registry()[18].4) == (15int, 'b', 'r', 'n'));
    assert(id_key(registry()[19].4) == (14int, 'l', 'f', 'c'));
    assert forall|i: int, j: int|
        0 <= i < registry().len() && 0 <= j < registry().len() && i != j implies
            #[trigger] registry()[i].4 != #[trigger] registry()[j].4 by {
        assert(id_key(registry()[i].4) != id_key(registry()[j].4));
    }
}

} // verus!
