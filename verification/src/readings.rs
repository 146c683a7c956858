//! The readings that the inverter is known to report, by name.

use vstd::prelude::*;
use crate::json::{Json, JsonView, int_field, int_member, members_view};

verus! {

/// The fixed set of readings, each an integer. A reading's values are an
/// open set, since the device's fields come and go; this is the typed form
/// for a caller that wants the known ones by name.
#[derive(Clone, Copy, Debug, PartialEq, Eq)]
pub struct Readings {
    pub epv1today: i64,
    pub epv1total: i64,
    pub epv2today: i64,
    pub epv2total: i64,
    pub epvtotal: i64,
    pub pv1current: i64,
    pub pv1voltage: i64,
    pub pv1watt: i64,
    pub pv2current: i64,
    pub pv2voltage: i64,
    pub pv2watt: i64,
    pub pvenergytoday: i64,
    pub pvenergytotal: i64,
    pub pvfrequentie: i64,
    pub pvgridcurrent: i64,
    pub pvgridcurrent2: i64,
    pub pvgridcurrent3: i64,
    pub pvgridpower: i64,
    pub pvgridpower2: i64,
    pub pvgridpower3: i64,
    pub pvgridvoltage: i64,
    pub pvgridvoltage2: i64,
    pub pvgridvoltage3: i64,
    pub pvipmtemperature: i64,
    pub pvpowerin: i64,
    pub pvpowerout: i64,
    pub pvstatus: i64,
    pub pvtemperature: i64,
    pub recortype1: i64,
    pub recortype2: i64,
    pub totworktime: i64,
}

/// The values hold every one of the readings as an integer that fits `i64`,
/// and `r` is what they hold.
pub open spec fn reads_as(values: Map<Seq<char>, JsonView>, r: Readings) -> bool {
    &&& int_member(values, "epv1today"@) == Some(r.epv1today)
    &&& int_member(values, "epv1total"@) == Some(r.epv1total)
    &&& int_member(values, "epv2today"@) == Some(r.epv2today)
    &&& int_member(values, "epv2total"@) == Some(r.epv2total)
    &&& int_member(values, "epvtotal"@) == Some(r.epvtotal)
    &&& int_member(values, "pv1current"@) == Some(r.pv1current)
    &&& int_member(values, "pv1voltage"@) == Some(r.pv1voltage)
    &&& int_member(values, "pv1watt"@) == Some(r.pv1watt)
    &&& int_member(values, "pv2current"@) == Some(r.pv2current)
    &&& int_member(values, "pv2voltage"@) == Some(r.pv2voltage)
    &&& int_member(values, "pv2watt"@) == Some(r.pv2watt)
    &&& int_member(values, "pvenergytoday"@) == Some(r.pvenergytoday)
    &&& int_member(values, "pvenergytotal"@) == Some(r.pvenergytotal)
    &&& int_member(values, "pvfrequentie"@) == Some(r.pvfrequentie)
    &&& int_member(values, "pvgridcurrent"@) == Some(r.pvgridcurrent)
    &&& int_member(values, "pvgridcurrent2"@) == Some(r.pvgridcurrent2)
    &&& int_member(values, "pvgridcurrent3"@) == Some(r.pvgridcurrent3)
    &&& int_member(values, "pvgridpower"@) == Some(r.pvgridpower)
    &&& int_member(values, "pvgridpower2"@) == Some(r.pvgridpower2)
    &&& int_member(values, "pvgridpower3"@) == Some(r.pvgridpower3)
    &&& int_member(values, "pvgridvoltage"@) == Some(r.pvgridvoltage)
    &&& int_member(values, "pvgridvoltage2"@) == Some(r.pvgridvoltage2)
    &&& int_member(values, "pvgridvoltage3"@) == Some(r.pvgridvoltage3)
    &&& int_member(values, "pvipmtemperature"@) == Some(r.pvipmtemperature)
    &&& int_member(values, "pvpowerin"@) == Some(r.pvpowerin)
    &&& int_member(values, "pvpowerout"@) == Some(r.pvpowerout)
    &&& int_member(values, "pvstatus"@) == Some(r.pvstatus)
    &&& int_member(values, "pvtemperature"@) == Some(r.pvtemperature)
    &&& int_member(values, "recortype1"@) == Some(r.recortype1)
    &&& int_member(values, "recortype2"@) == Some(r.recortype2)
    &&& int_member(values, "totworktime"@) == Some(r.totworktime)
}

impl Readings {
    /// Reads the known readings out of a reading's values. `None` means that
    /// one of them is missing or is not an integer that fits `i64`; values
    /// beyond the known ones are ignored.
    pub fn from_values(values: &Vec<(String, Json)>) -> (r: Option<Readings>)
        ensures
            match r {
                Some(x) => reads_as(members_view(values@), x),
                None => forall|x: Readings| !reads_as(members_view(values@), x),
            },
    {
        Some(
            Readings {
                epv1today: int_field(values, "epv1today")?,
                epv1total: int_field(values, "epv1total")?,
                epv2today: int_field(values, "epv2today")?,
                epv2total: int_field(values, "epv2total")?,
                epvtotal: int_field(values, "epvtotal")?,
                pv1current: int_field(values, "pv1current")?,
                pv1voltage: int_field(values, "pv1voltage")?,
                pv1watt: int_field(values, "pv1watt")?,
                pv2current: int_field(values, "pv2current")?,
                pv2voltage: int_field(values, "pv2voltage")?,
                pv2watt: int_field(values, "pv2watt")?,
                pvenergytoday: int_field(values, "pvenergytoday")?,
                pvenergytotal: int_field(values, "pvenergytotal")?,
                pvfrequentie: int_field(values, "pvfrequentie")?,
                pvgridcurrent: int_field(values, "pvgridcurrent")?,
                pvgridcurrent2: int_field(values, "pvgridcurrent2")?,
                pvgridcurrent3: int_field(values, "pvgridcurrent3")?,
                pvgridpower: int_field(values, "pvgridpower")?,
                pvgridpower2: int_field(values, "pvgridpower2")?,
                pvgridpower3: int_field(values, "pvgridpower3")?,
                pvgridvoltage: int_field(values, "pvgridvoltage")?,
                pvgridvoltage2: int_field(values, "pvgridvoltage2")?,
                pvgridvoltage3: int_field(values, "pvgridvoltage3")?,
                pvipmtemperature: int_field(values, "pvipmtemperature")?,
                pvpowerin: int_field(values, "pvpowerin")?,
                pvpowerout: int_field(values, "pvpowerout")?,
                pvstatus: int_field(values, "pvstatus")?,
                pvtemperature: int_field(values, "pvtemperature")?,
                recortype1: int_field(values, "recortype1")?,
                recortype2: int_field(values, "recortype2")?,
                totworktime: int_field(values, "totworktime")?,
            },
        )
    }
}

} // verus!
