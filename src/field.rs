use vstd::prelude::*;

verus! {

/// The kinds of physical quantity that a frame carries.
#[derive(Clone, Copy, PartialEq, Eq, Debug, Structural)]
pub enum FieldType {
    Charge,
    Current,
    Energy,
    Frequency,
    Power,
    StateOfCharge,
    Temperature,
    Voltage,
}

/// Scale of a quantity kind, in hundredths: the physical value in hundredths
/// of its unit is `raw * scale + bias`.
pub open spec fn scale_of(t: FieldType) -> int {
    match t {
        FieldType::Charge => 100,
        FieldType::Current => 1,
        FieldType::Energy => 10,
        FieldType::Frequency => 1,
        FieldType::Power => 100,
        FieldType::StateOfCharge => 100,
        FieldType::Temperature => 10,
        FieldType::Voltage => 10,
    }
}

/// Bias of a quantity kind, in hundredths of its unit.
pub open spec fn bias_of(t: FieldType) -> int {
    match t {
        FieldType::Temperature => -10000,
        _ => 0,
    }
}

/// Display unit of a quantity kind.
pub open spec fn unit_of(t: FieldType) -> Seq<char> {
    match t {
        FieldType::Charge => "Ah"@,
        FieldType::Current => "A"@,
        FieldType::Energy => "kWh"@,
        FieldType::Frequency => "Hz"@,
        FieldType::Power => "W"@,
        FieldType::StateOfCharge => "%"@,
        FieldType::Temperature => "°C"@,
        FieldType::Voltage => "V"@,
    }
}

/// Describes where one measurement lives in a frame and how its raw value
/// converts to a physical one.
///
/// Scale and bias are fixed-point, in hundredths: a scale of `10` stands for
/// `0.1`, a bias of `-10000` for `-100.0`. The physical value, also in
/// hundredths of `unit`, is `raw * scale + bias`.
#[derive(Clone, Copy, Debug)]
pub struct Field<'a> {
    pub field_type: FieldType,
    pub offset: usize,
    pub group: &'a str,
    pub name: &'a str,
    pub id: &'a str,
    pub scale: i64,
    pub bias: i64,
    pub unit: &'a str,
}

impl<'a> Field<'a> {
    /// Scale, bias and unit are the ones fixed for the field's kind.
    pub open spec fn canonical(&self) -> bool {
        &&& self.scale == scale_of(self.field_type)
        &&& self.bias == bias_of(self.field_type)
        &&& self.unit@ == unit_of(self.field_type)
    }

    /// What a constructor of kind `t` promises of the field it returns.
    pub open spec fn built(
        &self,
        t: FieldType,
        offset: usize,
        group: Seq<char>,
        name: Seq<char>,
        id: Seq<char>,
    ) -> bool {
        &&& self.field_type == t
        &&& self.offset == offset
        &&& self.group@ == group
        &&& self.name@ == name
        &&& self.id@ == id
        &&& self.canonical()
    }

    /// A power field, in watts, named "Power".
    pub fn power(offset: usize, group: &'a str, id: &'a str) -> (r: Self)
        ensures
            r.built(FieldType::Power, offset, group@, "Power"@, id@),
    {
        Field {
            field_type: FieldType::Power,
            offset,
            group,
            name: "Power",
            id,
            scale: 100,
            bias: 0,
            unit: "W",
        }
    }

    /// A voltage field, in volts with scale 0.1, named "Voltage".
    pub fn voltage(offset: usize, group: &'a str, id: &'a str) -> (r: Self)
        ensures
            r.built(FieldType::Voltage, offset, group@, "Voltage"@, id@),
    {
        Field {
            field_type: FieldType::Voltage,
            offset,
            group,
            name: "Voltage",
            id,
            scale: 10,
            bias: 0,
            unit: "V",
        }
    }

    /// A current field, in amperes with scale 0.01, named "Current".
    pub fn current(offset: usize, group: &'a str, id: &'a str) -> (r: Self)
        ensures
            r.built(FieldType::Current, offset, group@, "Current"@, id@),
    {
        Field {
            field_type: FieldType::Current,
            offset,
            group,
            name: "Current",
            id,
            scale: 1,
            bias: 0,
            unit: "A",
        }
    }

    /// A temperature field with the given name, in °C with scale 0.1 and bias -100.
    pub fn temperature_name(offset: usize, group: &'a str, name: &'a str, id: &'a str) -> (r: Self)
        ensures
            r.built(FieldType::Temperature, offset, group@, name@, id@),
    {
        Field {
            field_type: FieldType::Temperature,
            offset,
            group,
            name,
            id,
            scale: 10,
            bias: -10000,
            unit: "°C",
        }
    }

    /// A temperature field named "Temperature".
    pub fn temperature(offset: usize, group: &'a str, id: &'a str) -> (r: Self)
        ensures
            r.built(FieldType::Temperature, offset, group@, "Temperature"@, id@),
    {
        Field::temperature_name(offset, group, "Temperature", id)
    }

    /// A frequency field, in hertz with scale 0.01, named "Frequency".
    pub fn frequency(offset: usize, group: &'a str, id: &'a str) -> (r: Self)
        ensures
            r.built(FieldType::Frequency, offset, group@, "Frequency"@, id@),
    {
        Field {
            field_type: FieldType::Frequency,
            offset,
            group,
            name: "Frequency",
            id,
            scale: 1,
            bias: 0,
            unit: "Hz",
        }
    }

    /// An energy field with the given name, in kWh with scale 0.1.
    pub fn energy(offset: usize, group: &'a str, name: &'a str, id: &'a str) -> (r: Self)
        ensures
            r.built(FieldType::Energy, offset, group@, name@, id@),
    {
        Field {
            field_type: FieldType::Energy,
            offset,
            group,
            name,
            id,
            scale: 10,
            bias: 0,
            unit: "kWh",
        }
    }

    /// A charge field with the given name, in ampere-hours.
    pub fn charge(offset: usize, group: &'a str, name: &'a str, id: &'a str) -> (r: Self)
        ensures
            r.built(FieldType::Charge, offset, group@, name@, id@),
    {
        Field {
            field_type: FieldType::Charge,
            offset,
            group,
            name,
            id,
            scale: 100,
            bias: 0,
            unit: "Ah",
        }
    }

    /// A state-of-charge field, in percent, named "SOC".
    pub fn state_of_charge(offset: usize, group: &'a str, id: &'a str) -> (r: Self)
        ensures
            r.built(FieldType::StateOfCharge, offset, group@, "SOC"@, id@),
    {
        Field {
            field_type: FieldType::StateOfCharge,
            offset,
            group,
            name: "SOC",
            id,
            scale: 100,
            bias: 0,
            unit: "%",
        }
    }
}

} // verus!
