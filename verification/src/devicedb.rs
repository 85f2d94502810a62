//! Discovered product data of known devices, looked up by model id.
//!
//! The database gives more realistic Hue API data where the backend
//! (zigbee2mqtt) does not report it.

use vstd::prelude::*;

use crate::hue_api::{signify_manufacturer_name, spec_signify_manufacturer_name, DeviceArchetype};
use crate::text::{lemma_text_lt_at, lemma_text_lt_transitive, str_eq, text_lt};

verus! {

/// Product data of one known model.
#[derive(Debug, Clone, Copy)]
pub struct SimpleProductData<'a> {
    pub manufacturer_name: &'a str,
    pub product_name: &'a str,
    pub product_archetype: DeviceArchetype,
    pub hardware_platform_type: Option<&'a str>,
}

/// The value of a [`SimpleProductData`], with its texts as character sequences.
pub ghost struct SpecProductData {
    pub manufacturer_name: Seq<char>,
    pub product_name: Seq<char>,
    pub product_archetype: DeviceArchetype,
    pub hardware_platform_type: Option<Seq<char>>,
}

/// The characters of an optional text.
pub open spec fn opt_str_view(s: Option<&str>) -> Option<Seq<char>> {
    match s {
        Some(t) => Some(t@),
        None => None,
    }
}

impl<'a> View for SimpleProductData<'a> {
    type V = SpecProductData;

    open spec fn view(&self) -> SpecProductData {
        SpecProductData {
            manufacturer_name: self.manufacturer_name@,
            product_name: self.product_name@,
            product_archetype: self.product_archetype,
            hardware_platform_type: opt_str_view(self.hardware_platform_type),
        }
    }
}

/// An entry made by Signify, with its hardware platform type.
pub open spec fn signify_entry(
    product_name: Seq<char>,
    product_archetype: DeviceArchetype,
    hardware_platform_type: Seq<char>,
) -> SpecProductData {
    SpecProductData {
        manufacturer_name: spec_signify_manufacturer_name(),
        product_name,
        product_archetype,
        hardware_platform_type: Some(hardware_platform_type),
    }
}

impl<'a> SimpleProductData<'a> {
    /// Product data of a Signify device.
    pub fn signify(
        product_name: &'a str,
        product_archetype: DeviceArchetype,
        hardware_platform_type: &'a str,
    ) -> (r: Self)
        ensures
            r@ == signify_entry(product_name@, product_archetype, hardware_platform_type@),
    {
        SimpleProductData {
            manufacturer_name: signify_manufacturer_name(),
            product_name,
            product_archetype,
            hardware_platform_type: Some(hardware_platform_type),
        }
    }
}

/// The known models, model id and product data, in increasing order of model id.
pub open spec fn product_table() -> Seq<(Seq<char>, SpecProductData)> {
    seq![
        ("3RSP02028BZ"@, SpecProductData { manufacturer_name: "Third Reality, Inc"@, product_name: "Zigbee / BLE smart plug with power"@, product_archetype: DeviceArchetype::Plug, hardware_platform_type: None }),
        ("915005987201"@, signify_entry("Signe gradient floor"@, DeviceArchetype::HueSigne, "100b-118"@)),
        ("929003053301_01"@, signify_entry("Hue Ensis up"@, DeviceArchetype::PendantLong, "100b-11f"@)),
        ("929003053301_02"@, signify_entry("Hue Ensis down"@, DeviceArchetype::PendantLong, "100b-11f"@)),
        ("LCA001"@, signify_entry("Hue color lamp"@, DeviceArchetype::SultanBulb, "100b-112"@)),
        ("LCD007"@, signify_entry("Hue color downlight"@, DeviceArchetype::RecessedCeiling, "100b-114"@)),
        ("LCE002"@, signify_entry("Hue color candle"@, DeviceArchetype::CandleBulb, "100b-114"@)),
        ("LCG002"@, signify_entry("Hue color spot"@, DeviceArchetype::SpotBulb, "100b-114"@)),
        ("LCT014"@, signify_entry("Hue color lamp"@, DeviceArchetype::SultanBulb, "100b-10c"@)),
        ("LCT015"@, signify_entry("Hue color lamp"@, DeviceArchetype::SultanBulb, "100b-10c"@)),
        ("LCT016"@, signify_entry("Hue color lamp"@, DeviceArchetype::SultanBulb, "100b-10c"@)),
        ("LCX001"@, signify_entry("Hue play gradient lightstrip"@, DeviceArchetype::HueLightstripTv, "100b-118"@)),
        ("LCX005"@, signify_entry("Hue play gradient lightstrip"@, DeviceArchetype::HueLightstripPc, "100b-118"@)),
        ("LLC020"@, signify_entry("Hue go"@, DeviceArchetype::HueGo, "100b-108"@)),
        ("LOM001"@, signify_entry("Hue Smart plug"@, DeviceArchetype::Plug, "100b-115"@)),
        ("LST002"@, signify_entry("Hue lightstrip plus"@, DeviceArchetype::HueLightstrip, "100b-10f"@)),
        ("LTO001"@, signify_entry("Hue filament bulb"@, DeviceArchetype::VintageBulb, "100b-114"@)),
        ("LTW015"@, signify_entry("Hue ambiance lamp"@, DeviceArchetype::SultanBulb, "100b-10c"@)),
        ("LWA003"@, signify_entry("Hue white lamp"@, DeviceArchetype::SultanBulb, "100b-114"@)),
        ("LWA029"@, signify_entry("Hue white lamp"@, DeviceArchetype::SultanBulb, "100b-114"@)),
        ("LWB014"@, signify_entry("Hue white lamp"@, DeviceArchetype::ClassicBulb, "100b-10c"@)),
        ("RDM002"@, signify_entry("Hue tap dial switch"@, DeviceArchetype::UnknownArchetype, "100b-121"@)),
        ("RWL021"@, signify_entry("Hue dimmer switch"@, DeviceArchetype::UnknownArchetype, "100b-109"@)),
        ("RWL022"@, signify_entry("Hue dimmer switch"@, DeviceArchetype::UnknownArchetype, "100b-119"@)),
        ("SML001"@, signify_entry("Hue motion sensor"@, DeviceArchetype::UnknownArchetype, "100b-10d"@)),
        ("SML002"@, signify_entry("Hue outdoor motion sensor"@, DeviceArchetype::UnknownArchetype, "100b-10d"@)),
        ("SML003"@, signify_entry("Hue motion sensor"@, DeviceArchetype::UnknownArchetype, "100b-11b"@)),
        ("Z3-1BRL"@, SpecProductData { manufacturer_name: "Lutron"@, product_name: "Lutron Aurora"@, product_archetype: DeviceArchetype::UnknownArchetype, hardware_platform_type: Some("1144-0"@) }),
    ]
}

/// Whether the model ids of `table` strictly increase.
pub open spec fn keys_increasing(table: Seq<(Seq<char>, SpecProductData)>) -> bool {
    forall|i: int, j: int| 0 <= i < j < table.len() ==> text_lt(#[trigger] table[i].0, #[trigger] table[j].0)
}

proof fn lemma_increasing_from_neighbours(table: Seq<(Seq<char>, SpecProductData)>)
    requires
        forall|i: int| 0 <= i < table.len() - 1 ==> text_lt(#[trigger] table[i].0, table[i + 1].0),
    ensures
        keys_increasing(table),
{
    assert forall|i: int, j: int| 0 <= i < j < table.len() implies text_lt(#[trigger] table[i].0, #[trigger] table[j].0) by {
        lemma_increasing_between(table, i, j);
    }
}

proof fn lemma_increasing_between(table: Seq<(Seq<char>, SpecProductData)>, i: int, j: int)
    requires
        forall|k: int| 0 <= k < table.len() - 1 ==> text_lt(#[trigger] table[k].0, table[k + 1].0),
        0 <= i < j < table.len(),
    ensures
        text_lt(table[i].0, table[j].0),
    decreases j - i,
{
    if j > i + 1 {
        lemma_increasing_between(table, i, j - 1);
        lemma_text_lt_transitive(table[i].0, table[j - 1].0, table[j].0);
    }
}

/// The model ids of the product table strictly increase, as the keys of an ordered map do.
pub proof fn lemma_product_table_increasing()
    ensures
        keys_increasing(product_table()),
{
        reveal_strlit("3RSP02028BZ");
        reveal_strlit("915005987201");
        reveal_strlit("929003053301_01");
        reveal_strlit("929003053301_02");
        reveal_strlit("LCA001");
        reveal_strlit("LCD007");
        reveal_strlit("LCE002");
        reveal_strlit("LCG002");
        reveal_strlit("LCT014");
        reveal_strlit("LCT015");
        reveal_strlit("LCT016");
        reveal_strlit("LCX001");
        reveal_strlit("LCX005");
        reveal_strlit("LLC020");
        reveal_strlit("LOM001");
        reveal_strlit("LST002");
        reveal_strlit("LTO001");
        reveal_strlit("LTW015");
        reveal_strlit("LWA003");
        reveal_strlit("LWA029");
        reveal_strlit("LWB014");
        reveal_strlit("RDM002");
        reveal_strlit("RWL021");
        reveal_strlit("RWL022");
        reveal_strlit("SML001");
        reveal_strlit("SML002");
        reveal_strlit("SML003");
        reveal_strlit("Z3-1BRL");
    let t = product_table();
    assert(t.len() == 28);
        lemma_text_lt_at(t[0].0, t[1].0, 0);
        lemma_text_lt_at(t[1].0, t[2].0, 1);
        lemma_text_lt_at(t[2].0, t[3].0, 14);
        lemma_text_lt_at(t[3].0, t[4].0, 0);
        lemma_text_lt_at(t[4].0, t[5].0, 2);
        lemma_text_lt_at(t[5].0, t[6].0, 2);
        lemma_text_lt_at(t[6].0, t[7].0, 2);
        lemma_text_lt_at(t[7].0, t[8].0, 2);
        lemma_text_lt_at(t[8].0, t[9].0, 5);
        lemma_text_lt_at(t[9].0, t[10].0, 5);
        lemma_text_lt_at(t[10].0, t[11].0, 2);
        lemma_text_lt_at(t[11].0, t[12].0, 5);
        lemma_text_lt_at(t[12].0, t[13].0, 1);
        lemma_text_lt_at(t[13].0, t[14].0, 1);
        lemma_text_lt_at(t[14].0, t[15].0, 1);
        lemma_text_lt_at(t[15].0, t[16].0, 1);
        lemma_text_lt_at(t[16].0, t[17].0, 2);
        lemma_text_lt_at(t[17].0, t[18].0, 1);
        lemma_text_lt_at(t[18].0, t[19].0, 4);
        lemma_text_lt_at(t[19].0, t[20].0, 2);
        lemma_text_lt_at(t[20].0, t[21].0, 0);
        lemma_text_lt_at(t[21].0, t[22].0, 1);
        lemma_text_lt_at(t[22].0, t[23].0, 5);
        lemma_text_lt_at(t[23].0, t[24].0, 0);
        lemma_text_lt_at(t[24].0, t[25].0, 5);
        lemma_text_lt_at(t[25].0, t[26].0, 5);
        lemma_text_lt_at(t[26].0, t[27].0, 0);
    lemma_increasing_from_neighbours(t);
}

/// The data of the first entry of `table` whose model id is `model_id`.
pub open spec fn table_lookup(table: Seq<(Seq<char>, SpecProductData)>, model_id: Seq<char>) -> Option<
    SpecProductData,
>
    decreases table.len(),
{
    if table.len() == 0 {
        None
    } else if table[0].0 == model_id {
        Some(table[0].1)
    } else {
        table_lookup(table.drop_first(), model_id)
    }
}

/// The product data known for `model_id`.
pub open spec fn spec_product_data(model_id: Seq<char>) -> Option<SpecProductData> {
    table_lookup(product_table(), model_id)
}

/// The view of a table entry.
pub open spec fn entry_view(e: (&'static str, SimpleProductData<'static>)) -> (Seq<char>, SpecProductData) {
    (e.0@, e.1@)
}

/// Builds the table of known models.
pub fn make_product_data() -> (t: Vec<(&'static str, SimpleProductData<'static>)>)
    ensures
        t@.map_values(|e: (&'static str, SimpleProductData<'static>)| entry_view(e)) =~= product_table(),
        keys_increasing(t@.map_values(|e: (&'static str, SimpleProductData<'static>)| entry_view(e))),
{
    proof {
        lemma_product_table_increasing();
    }
    let mut t: Vec<(&'static str, SimpleProductData<'static>)> = Vec::new();
    t.push((
        "3RSP02028BZ",
        SimpleProductData {
            manufacturer_name: "Third Reality, Inc",
            product_name: "Zigbee / BLE smart plug with power",
            product_archetype: DeviceArchetype::Plug,
            hardware_platform_type: None,
        },
    ));
    t.push(("915005987201", SimpleProductData::signify("Signe gradient floor", DeviceArchetype::HueSigne, "100b-118")));
    t.push(("929003053301_01", SimpleProductData::signify("Hue Ensis up", DeviceArchetype::PendantLong, "100b-11f")));
    t.push(("929003053301_02", SimpleProductData::signify("Hue Ensis down", DeviceArchetype::PendantLong, "100b-11f")));
    t.push(("LCA001", SimpleProductData::signify("Hue color lamp", DeviceArchetype::SultanBulb, "100b-112")));
    t.push(("LCD007", SimpleProductData::signify("Hue color downlight", DeviceArchetype::RecessedCeiling, "100b-114")));
    t.push(("LCE002", SimpleProductData::signify("Hue color candle", DeviceArchetype::CandleBulb, "100b-114")));
    t.push(("LCG002", SimpleProductData::signify("Hue color spot", DeviceArchetype::SpotBulb, "100b-114")));
    t.push(("LCT014", SimpleProductData::signify("Hue color lamp", DeviceArchetype::SultanBulb, "100b-10c")));
    t.push(("LCT015", SimpleProductData::signify("Hue color lamp", DeviceArchetype::SultanBulb, "100b-10c")));
    t.push(("LCT016", SimpleProductData::signify("Hue color lamp", DeviceArchetype::SultanBulb, "100b-10c")));
    t.push(("LCX001", SimpleProductData::signify("Hue play gradient lightstrip", DeviceArchetype::HueLightstripTv, "100b-118")));
    t.push(("LCX005", SimpleProductData::signify("Hue play gradient lightstrip", DeviceArchetype::HueLightstripPc, "100b-118")));
    t.push(("LLC020", SimpleProductData::signify("Hue go", DeviceArchetype::HueGo, "100b-108")));
    t.push(("LOM001", SimpleProductData::signify("Hue Smart plug", DeviceArchetype::Plug, "100b-115")));
    t.push(("LST002", SimpleProductData::signify("Hue lightstrip plus", DeviceArchetype::HueLightstrip, "100b-10f")));
    t.push(("LTO001", SimpleProductData::signify("Hue filament bulb", DeviceArchetype::VintageBulb, "100b-114")));
    t.push(("LTW015", SimpleProductData::signify("Hue ambiance lamp", DeviceArchetype::SultanBulb, "100b-10c")));
    t.push(("LWA003", SimpleProductData::signify("Hue white lamp", DeviceArchetype::SultanBulb, "100b-114")));
    t.push(("LWA029", SimpleProductData::signify("Hue white lamp", DeviceArchetype::SultanBulb, "100b-114")));
    t.push(("LWB014", SimpleProductData::signify("Hue white lamp", DeviceArchetype::ClassicBulb, "100b-10c")));
    t.push(("RDM002", SimpleProductData::signify("Hue tap dial switch", DeviceArchetype::UnknownArchetype, "100b-121")));
    t.push(("RWL021", SimpleProductData::signify("Hue dimmer switch", DeviceArchetype::UnknownArchetype, "100b-109")));
    t.push(("RWL022", SimpleProductData::signify("Hue dimmer switch", DeviceArchetype::UnknownArchetype, "100b-119")));
    t.push(("SML001", SimpleProductData::signify("Hue motion sensor", DeviceArchetype::UnknownArchetype, "100b-10d")));
    t.push(("SML002", SimpleProductData::signify("Hue outdoor motion sensor", DeviceArchetype::UnknownArchetype, "100b-10d")));
    t.push(("SML003", SimpleProductData::signify("Hue motion sensor", DeviceArchetype::UnknownArchetype, "100b-11b")));
    t.push((
        "Z3-1BRL",
        SimpleProductData {
            manufacturer_name: "Lutron",
            product_name: "Lutron Aurora",
            product_archetype: DeviceArchetype::UnknownArchetype,
            hardware_platform_type: Some("1144-0"),
        },
    ));
    t
}

/// Product data of the model with id `model_id`, if it is known.
pub fn product_data(model_id: &str) -> (r: Option<SimpleProductData<'static>>)
    ensures
        match r {
            Some(d) => spec_product_data(model_id@) == Some(d@),
            None => spec_product_data(model_id@) is None,
        },
{
    let table = make_product_data();
    let ghost tv = table@.map_values(|e: (&'static str, SimpleProductData<'static>)| entry_view(e));
    assert(tv.skip(0) =~= tv);
    let mut i: usize = 0;
    while i < table.len()
        invariant
            tv == table@.map_values(|e: (&'static str, SimpleProductData<'static>)| entry_view(e)),
            tv == product_table(),
            i <= table@.len(),
            table_lookup(tv.skip(i as int), model_id@) == spec_product_data(model_id@),
        decreases table@.len() - i,
    {
        assert(tv.skip(i as int).drop_first() =~= tv.skip(i + 1));
        assert(tv.skip(i as int)[0] == entry_view(table@[i as int]));
        if str_eq(table[i].0, model_id) {
            return Some(table[i].1);
        }
        i = i + 1;
    }
    None
}

/// The product archetype known for `model_id`.
pub fn product_archetype(model_id: &str) -> (r: Option<DeviceArchetype>)
    ensures
        r == (match spec_product_data(model_id@) {
            Some(d) => Some(d.product_archetype),
            None => None,
        }),
{
    match product_data(model_id) {
        Some(pd) => Some(pd.product_archetype),
        None => None,
    }
}

/// The hardware platform type known for `model_id`.
pub fn hardware_platform_type(model_id: &str) -> (r: Option<&'static str>)
    ensures
        opt_str_view(r) == (match spec_product_data(model_id@) {
            Some(d) => d.hardware_platform_type,
            None => None,
        }),
{
    match product_data(model_id) {
        Some(pd) => pd.hardware_platform_type,
        None => None,
    }
}

} // verus!
