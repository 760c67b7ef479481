//! Geomaterial types for the Mindat API.

use crate::decimal::Decimal;
use crate::decode::{
    decodes_optional,
    FromJson,
    get_int,
    get_optional_record,
    get_text,
    int_member,
    text_member,
    text_of,
};
use crate::json::{Json, member};
use crate::lenient::{
    decimal_of,
    decodes_list,
    get_lenient_decimal,
    get_lenient_i32,
    get_lenient_ints,
    get_lenient_records,
    get_lenient_strings,
    get_lenient_u32,
    ints_of,
    lenient_decimal_member,
    lenient_i32_member,
    lenient_ints_member,
    lenient_strings_member,
    lenient_u32_member,
    strings_of,
};
use crate::models::common::{MinStats, Relation};
use crate::models::enums::{
    CleavageType, CrystalSystem, Diapheny, FractureType, GeomaterialsOrdering, ImaNotes,
    ImaStatus, LustreType, OpticalSign, OpticalType, Tenacity,
};
use crate::params::{
    bool_param, bool_text, decimal_param, int_param, ordering_param, pairs_view, push_bool,
    push_decimal, push_int, push_ordering, push_text, text_param,
};
use vstd::prelude::*;

verus! {

/// A geomaterial (mineral, variety, synonym, rock, etc.) from the Mindat database.
#[derive(Debug, Clone)]
pub struct Geomaterial {
    /// Mindat ID.
    pub id: i32,
    /// Long ID string.
    pub longid: Option<String>,
    /// GUID.
    pub guid: Option<String>,
    /// Name of the geomaterial.
    pub name: Option<String>,
    /// Last update time.
    pub updttime: Option<String>,
    /// Mindat chemical formula.
    pub mindat_formula: Option<String>,
    /// Notes on the Mindat formula.
    pub mindat_formula_note: Option<String>,
    /// IMA-approved chemical formula.
    pub ima_formula: Option<String>,
    /// IMA status values.
    pub ima_status: Option<Vec<String>>,
    /// IMA notes.
    pub ima_notes: Option<Vec<String>>,
    /// Variety of (geomaterial ID).
    pub varietyof: Option<i32>,
    /// Synonym of (geomaterial ID).
    pub synid: Option<i32>,
    /// Polytype of (geomaterial ID).
    pub polytypeof: Option<i32>,
    /// Group ID (member of).
    pub groupid: Option<i32>,
    /// Entry type (0=mineral, 1=synonym, 2=variety, etc.).
    pub entrytype: Option<i32>,
    /// Entry type as text.
    pub entrytype_text: Option<String>,
    /// Short description.
    pub description_short: Option<String>,
    /// Common impurities.
    pub impurities: Option<String>,
    /// Elements present.
    pub elements: Option<Vec<String>>,
    /// Significant elements.
    pub sigelements: Option<Vec<String>>,
    /// Key elements (important for mining).
    pub key_elements: Option<Vec<String>>,
    /// Type locality form.
    pub tlform: Option<String>,
    /// HEY index.
    pub cim: Option<String>,
    /// Type locality occurrence.
    pub occurrence: Option<String>,
    /// Other occurrences.
    pub otheroccurrence: Option<String>,
    /// Industrial uses.
    pub industrial: Option<String>,
    /// Discovery year.
    pub discovery_year: Option<String>,
    /// Approval year.
    pub approval_year: Option<u32>,
    /// Publication year.
    pub publication_year: Option<u32>,
    /// IMA history.
    pub ima_history: Option<String>,
    /// Transparency (diapheny).
    pub diapheny: Option<String>,
    /// Cleavage description.
    pub cleavage: Option<String>,
    /// Cleavage type.
    pub cleavagetype: Option<String>,
    /// Parting.
    pub parting: Option<String>,
    /// Tenacity.
    pub tenacity: Option<String>,
    /// Colour description.
    pub colour: Option<String>,
    /// Metamict flag.
    pub csmetamict: Option<i32>,
    /// Optical extinction direction.
    pub opticalextinction: Option<String>,
    /// Minimum Mohs hardness.
    pub hmin: Option<Decimal>,
    /// Maximum Mohs hardness.
    pub hmax: Option<Decimal>,
    /// Hardness type.
    pub hardtype: Option<i32>,
    /// Vickers hardness minimum.
    pub vhnmin: Option<String>,
    /// Vickers hardness maximum.
    pub vhnmax: Option<String>,
    /// Vickers hardness error.
    pub vhnerror: Option<i32>,
    /// Vickers hardness weight.
    pub vhng: Option<i32>,
    /// Vickers hardness time.
    pub vhns: Option<i32>,
    /// Luminescence.
    pub luminescence: Option<String>,
    /// Lustre description.
    pub lustre: Option<String>,
    /// Lustre type.
    pub lustretype: Option<String>,
    /// About name reference.
    pub aboutname: Option<String>,
    /// Other information.
    pub other: Option<String>,
    /// Streak colour.
    pub streak: Option<String>,
    /// Crystal system.
    pub csystem: Option<String>,
    /// Crystal class (point group ID).
    pub cclass: Option<i32>,
    /// Space group ID.
    pub spacegroup: Option<i32>,
    /// Space group setting.
    pub spacegroupset: Option<String>,
    /// Unit cell a.
    pub a: Option<String>,
    /// Unit cell b.
    pub b: Option<String>,
    /// Unit cell c.
    pub c: Option<String>,
    /// Unit cell alpha.
    pub alpha: Option<String>,
    /// Unit cell beta.
    pub beta: Option<String>,
    /// Unit cell gamma.
    pub gamma: Option<String>,
    /// Unit cell volume.
    pub va3: Option<Decimal>,
    /// Z value.
    pub z: Option<i32>,
    /// Measured density minimum.
    pub dmeas: Option<String>,
    /// Measured density maximum.
    pub dmeas2: Option<String>,
    /// Calculated density.
    pub dcalc: Option<String>,
    /// Fracture type.
    pub fracturetype: Option<String>,
    /// Morphology.
    pub morphology: Option<String>,
    /// Twinning.
    pub twinning: Option<String>,
    /// Epitaxy description.
    pub epitaxidescription: Option<String>,
    /// Optical type.
    pub opticaltype: Option<String>,
    /// Optical sign.
    pub opticalsign: Option<String>,
    /// Refractive index alpha.
    pub opticalalpha: Option<String>,
    /// Refractive index beta.
    pub opticalbeta: Option<String>,
    /// Refractive index gamma.
    pub opticalgamma: Option<String>,
    /// Refractive index omega.
    pub opticalomega: Option<String>,
    /// Refractive index epsilon.
    pub opticalepsilon: Option<String>,
    /// Refractive index n.
    pub opticaln: Option<String>,
    /// 2V calculated.
    pub optical2vcalc: Option<String>,
    /// 2V measured.
    pub optical2vmeasured: Option<String>,
    /// Optical dispersion.
    pub opticaldispersion: Option<String>,
    /// Pleochroism.
    pub opticalpleochroism: Option<String>,
    /// Pleochroism description.
    pub opticalpleochorismdesc: Option<String>,
    /// Birefringence.
    pub opticalbirefringence: Option<String>,
    /// Optical comments.
    pub opticalcomments: Option<String>,
    /// Colour in reflected light.
    pub opticalcolour: Option<String>,
    /// Internal reflections.
    pub opticalinternal: Option<String>,
    /// Optical tropic.
    pub opticaltropic: Option<String>,
    /// Anisotropism.
    pub opticalanisotropism: Option<String>,
    /// Bireflectance.
    pub opticalbireflectance: Option<String>,
    /// Optical reflectivity.
    pub opticalr: Option<String>,
    /// Refractive index minimum.
    pub rimin: Option<Decimal>,
    /// Refractive index maximum.
    pub rimax: Option<Decimal>,
    /// UV fluorescence.
    pub uv: Option<String>,
    /// IR spectrum.
    pub ir: Option<String>,
    /// Magnetism.
    pub magnetism: Option<String>,
    /// Type specimen storage location.
    pub type_specimen_store: Option<String>,
    /// IMA shortcode.
    pub shortcode_ima: Option<String>,
    /// Strunz classification (10th ed) parts.
    pub strunz10ed1: Option<String>,
    /// `strunz10ed2`.
    pub strunz10ed2: Option<String>,
    /// `strunz10ed3`.
    pub strunz10ed3: Option<String>,
    /// `strunz10ed4`.
    pub strunz10ed4: Option<String>,
    /// Dana classification (8th ed) parts.
    pub dana8ed1: Option<String>,
    /// `dana8ed2`.
    pub dana8ed2: Option<String>,
    /// `dana8ed3`.
    pub dana8ed3: Option<String>,
    /// `dana8ed4`.
    pub dana8ed4: Option<String>,
    /// Thermal behaviour.
    pub thermalbehaviour: Option<String>,
    /// Electrical properties.
    pub electrical: Option<String>,
    /// Rock parent ID.
    pub rock_parent: Option<i32>,
    /// Rock parent 2 ID.
    pub rock_parent2: Option<i32>,
    /// Rock root ID.
    pub rock_root: Option<i32>,
    /// Rock BGS code.
    pub rock_bgs_code: Option<String>,
    /// Meteoritical code.
    pub meteoritical_code: Option<String>,
    /// Weighting.
    pub weighting: Option<i32>,
    /// Relations to other geomaterials.
    pub relations: Option<Vec<Relation>>,
    /// Mineral statistics.
    pub minstats: Option<MinStats>,
    /// Localities where found.
    pub locality: Option<Vec<i32>>,
    /// Type localities.
    pub type_localities: Option<Vec<i32>>,
}

impl FromJson for Geomaterial {
    open spec fn decodable(json: Json) -> bool {
        &&& int_member(json, "id"@) is Some
    }

    open spec fn decodes(json: Json, value: Self) -> bool {
        &&& Some(value.id as int) == int_member(json, "id"@)
        &&& text_of(value.longid) == text_member(json, "longid"@)
        &&& text_of(value.guid) == text_member(json, "guid"@)
        &&& text_of(value.name) == text_member(json, "name"@)
        &&& text_of(value.updttime) == text_member(json, "updttime"@)
        &&& text_of(value.mindat_formula) == text_member(json, "mindat_formula"@)
        &&& text_of(value.mindat_formula_note) == text_member(json, "mindat_formula_note"@)
        &&& text_of(value.ima_formula) == text_member(json, "ima_formula"@)
        &&& strings_of(value.ima_status) == lenient_strings_member(json, "ima_status"@)
        &&& strings_of(value.ima_notes) == lenient_strings_member(json, "ima_notes"@)
        &&& value.varietyof == lenient_i32_member(json, "varietyof"@)
        &&& value.synid == lenient_i32_member(json, "synid"@)
        &&& value.polytypeof == lenient_i32_member(json, "polytypeof"@)
        &&& value.groupid == lenient_i32_member(json, "groupid"@)
        &&& value.entrytype == lenient_i32_member(json, "entrytype"@)
        &&& text_of(value.entrytype_text) == text_member(json, "entrytype_text"@)
        &&& text_of(value.description_short) == text_member(json, "description_short"@)
        &&& text_of(value.impurities) == text_member(json, "impurities"@)
        &&& strings_of(value.elements) == lenient_strings_member(json, "elements"@)
        &&& strings_of(value.sigelements) == lenient_strings_member(json, "sigelements"@)
        &&& strings_of(value.key_elements) == lenient_strings_member(json, "key_elements"@)
        &&& text_of(value.tlform) == text_member(json, "tlform"@)
        &&& text_of(value.cim) == text_member(json, "cim"@)
        &&& text_of(value.occurrence) == text_member(json, "occurrence"@)
        &&& text_of(value.otheroccurrence) == text_member(json, "otheroccurrence"@)
        &&& text_of(value.industrial) == text_member(json, "industrial"@)
        &&& text_of(value.discovery_year) == text_member(json, "discovery_year"@)
        &&& value.approval_year == lenient_u32_member(json, "approval_year"@)
        &&& value.publication_year == lenient_u32_member(json, "publication_year"@)
        &&& text_of(value.ima_history) == text_member(json, "ima_history"@)
        &&& text_of(value.diapheny) == text_member(json, "diapheny"@)
        &&& text_of(value.cleavage) == text_member(json, "cleavage"@)
        &&& text_of(value.cleavagetype) == text_member(json, "cleavagetype"@)
        &&& text_of(value.parting) == text_member(json, "parting"@)
        &&& text_of(value.tenacity) == text_member(json, "tenacity"@)
        &&& text_of(value.colour) == text_member(json, "colour"@)
        &&& value.csmetamict == lenient_i32_member(json, "csmetamict"@)
        &&& text_of(value.opticalextinction) == text_member(json, "opticalextinction"@)
        &&& decimal_of(value.hmin) == lenient_decimal_member(json, "hmin"@)
        &&& decimal_of(value.hmax) == lenient_decimal_member(json, "hmax"@)
        &&& value.hardtype == lenient_i32_member(json, "hardtype"@)
        &&& text_of(value.vhnmin) == text_member(json, "vhnmin"@)
        &&& text_of(value.vhnmax) == text_member(json, "vhnmax"@)
        &&& value.vhnerror == lenient_i32_member(json, "vhnerror"@)
        &&& value.vhng == lenient_i32_member(json, "vhng"@)
        &&& value.vhns == lenient_i32_member(json, "vhns"@)
        &&& text_of(value.luminescence) == text_member(json, "luminescence"@)
        &&& text_of(value.lustre) == text_member(json, "lustre"@)
        &&& text_of(value.lustretype) == text_member(json, "lustretype"@)
        &&& text_of(value.aboutname) == text_member(json, "aboutname"@)
        &&& text_of(value.other) == text_member(json, "other"@)
        &&& text_of(value.streak) == text_member(json, "streak"@)
        &&& text_of(value.csystem) == text_member(json, "csystem"@)
        &&& value.cclass == lenient_i32_member(json, "cclass"@)
        &&& value.spacegroup == lenient_i32_member(json, "spacegroup"@)
        &&& text_of(value.spacegroupset) == text_member(json, "spacegroupset"@)
        &&& text_of(value.a) == text_member(json, "a"@)
        &&& text_of(value.b) == text_member(json, "b"@)
        &&& text_of(value.c) == text_member(json, "c"@)
        &&& text_of(value.alpha) == text_member(json, "alpha"@)
        &&& text_of(value.beta) == text_member(json, "beta"@)
        &&& text_of(value.gamma) == text_member(json, "gamma"@)
        &&& decimal_of(value.va3) == lenient_decimal_member(json, "va3"@)
        &&& value.z == lenient_i32_member(json, "z"@)
        &&& text_of(value.dmeas) == text_member(json, "dmeas"@)
        &&& text_of(value.dmeas2) == text_member(json, "dmeas2"@)
        &&& text_of(value.dcalc) == text_member(json, "dcalc"@)
        &&& text_of(value.fracturetype) == text_member(json, "fracturetype"@)
        &&& text_of(value.morphology) == text_member(json, "morphology"@)
        &&& text_of(value.twinning) == text_member(json, "twinning"@)
        &&& text_of(value.epitaxidescription) == text_member(json, "epitaxidescription"@)
        &&& text_of(value.opticaltype) == text_member(json, "opticaltype"@)
        &&& text_of(value.opticalsign) == text_member(json, "opticalsign"@)
        &&& text_of(value.opticalalpha) == text_member(json, "opticalalpha"@)
        &&& text_of(value.opticalbeta) == text_member(json, "opticalbeta"@)
        &&& text_of(value.opticalgamma) == text_member(json, "opticalgamma"@)
        &&& text_of(value.opticalomega) == text_member(json, "opticalomega"@)
        &&& text_of(value.opticalepsilon) == text_member(json, "opticalepsilon"@)
        &&& text_of(value.opticaln) == text_member(json, "opticaln"@)
        &&& text_of(value.optical2vcalc) == text_member(json, "optical2vcalc"@)
        &&& text_of(value.optical2vmeasured) == text_member(json, "optical2vmeasured"@)
        &&& text_of(value.opticaldispersion) == text_member(json, "opticaldispersion"@)
        &&& text_of(value.opticalpleochroism) == text_member(json, "opticalpleochroism"@)
        &&& text_of(value.opticalpleochorismdesc) == text_member(json, "opticalpleochorismdesc"@)
        &&& text_of(value.opticalbirefringence) == text_member(json, "opticalbirefringence"@)
        &&& text_of(value.opticalcomments) == text_member(json, "opticalcomments"@)
        &&& text_of(value.opticalcolour) == text_member(json, "opticalcolour"@)
        &&& text_of(value.opticalinternal) == text_member(json, "opticalinternal"@)
        &&& text_of(value.opticaltropic) == text_member(json, "opticaltropic"@)
        &&& text_of(value.opticalanisotropism) == text_member(json, "opticalanisotropism"@)
        &&& text_of(value.opticalbireflectance) == text_member(json, "opticalbireflectance"@)
        &&& text_of(value.opticalr) == text_member(json, "opticalr"@)
        &&& decimal_of(value.rimin) == lenient_decimal_member(json, "rimin"@)
        &&& decimal_of(value.rimax) == lenient_decimal_member(json, "rimax"@)
        &&& text_of(value.uv) == text_member(json, "uv"@)
        &&& text_of(value.ir) == text_member(json, "ir"@)
        &&& text_of(value.magnetism) == text_member(json, "magnetism"@)
        &&& text_of(value.type_specimen_store) == text_member(json, "type_specimen_store"@)
        &&& text_of(value.shortcode_ima) == text_member(json, "shortcode_ima"@)
        &&& text_of(value.strunz10ed1) == text_member(json, "strunz10ed1"@)
        &&& text_of(value.strunz10ed2) == text_member(json, "strunz10ed2"@)
        &&& text_of(value.strunz10ed3) == text_member(json, "strunz10ed3"@)
        &&& text_of(value.strunz10ed4) == text_member(json, "strunz10ed4"@)
        &&& text_of(value.dana8ed1) == text_member(json, "dana8ed1"@)
        &&& text_of(value.dana8ed2) == text_member(json, "dana8ed2"@)
        &&& text_of(value.dana8ed3) == text_member(json, "dana8ed3"@)
        &&& text_of(value.dana8ed4) == text_member(json, "dana8ed4"@)
        &&& text_of(value.thermalbehaviour) == text_member(json, "thermalbehaviour"@)
        &&& text_of(value.electrical) == text_member(json, "electrical"@)
        &&& value.rock_parent == lenient_i32_member(json, "rock_parent"@)
        &&& value.rock_parent2 == lenient_i32_member(json, "rock_parent2"@)
        &&& value.rock_root == lenient_i32_member(json, "rock_root"@)
        &&& text_of(value.rock_bgs_code) == text_member(json, "rock_bgs_code"@)
        &&& text_of(value.meteoritical_code) == text_member(json, "meteoritical_code"@)
        &&& value.weighting == lenient_i32_member(json, "weighting"@)
        &&& decodes_list::<Relation>(member(json, "relations"@), value.relations)
        &&& decodes_optional::<MinStats>(member(json, "minstats"@), value.minstats)
        &&& ints_of(value.locality) == lenient_ints_member(json, "locality"@)
        &&& ints_of(value.type_localities) == lenient_ints_member(json, "type_localities"@)
    }

    #[verifier::rlimit(50)]
    fn from_json(raw: &serde_json::Value) -> (r: Option<Self>) {
        let id = match get_int(raw, "id") {
            Some(found) => found,
            None => {
                return None;
            },
        };
        let longid = get_text(raw, "longid");
        let guid = get_text(raw, "guid");
        let name = get_text(raw, "name");
        let updttime = get_text(raw, "updttime");
        let mindat_formula = get_text(raw, "mindat_formula");
        let mindat_formula_note = get_text(raw, "mindat_formula_note");
        let ima_formula = get_text(raw, "ima_formula");
        let ima_status = get_lenient_strings(raw, "ima_status");
        let ima_notes = get_lenient_strings(raw, "ima_notes");
        let varietyof = get_lenient_i32(raw, "varietyof");
        let synid = get_lenient_i32(raw, "synid");
        let polytypeof = get_lenient_i32(raw, "polytypeof");
        let groupid = get_lenient_i32(raw, "groupid");
        let entrytype = get_lenient_i32(raw, "entrytype");
        let entrytype_text = get_text(raw, "entrytype_text");
        let description_short = get_text(raw, "description_short");
        let impurities = get_text(raw, "impurities");
        let elements = get_lenient_strings(raw, "elements");
        let sigelements = get_lenient_strings(raw, "sigelements");
        let key_elements = get_lenient_strings(raw, "key_elements");
        let tlform = get_text(raw, "tlform");
        let cim = get_text(raw, "cim");
        let occurrence = get_text(raw, "occurrence");
        let otheroccurrence = get_text(raw, "otheroccurrence");
        let industrial = get_text(raw, "industrial");
        let discovery_year = get_text(raw, "discovery_year");
        let approval_year = get_lenient_u32(raw, "approval_year");
        let publication_year = get_lenient_u32(raw, "publication_year");
        let ima_history = get_text(raw, "ima_history");
        let diapheny = get_text(raw, "diapheny");
        let cleavage = get_text(raw, "cleavage");
        let cleavagetype = get_text(raw, "cleavagetype");
        let parting = get_text(raw, "parting");
        let tenacity = get_text(raw, "tenacity");
        let colour = get_text(raw, "colour");
        let csmetamict = get_lenient_i32(raw, "csmetamict");
        let opticalextinction = get_text(raw, "opticalextinction");
        let hmin = get_lenient_decimal(raw, "hmin");
        let hmax = get_lenient_decimal(raw, "hmax");
        let hardtype = get_lenient_i32(raw, "hardtype");
        let vhnmin = get_text(raw, "vhnmin");
        let vhnmax = get_text(raw, "vhnmax");
        let vhnerror = get_lenient_i32(raw, "vhnerror");
        let vhng = get_lenient_i32(raw, "vhng");
        let vhns = get_lenient_i32(raw, "vhns");
        let luminescence = get_text(raw, "luminescence");
        let lustre = get_text(raw, "lustre");
        let lustretype = get_text(raw, "lustretype");
        let aboutname = get_text(raw, "aboutname");
        let other = get_text(raw, "other");
        let streak = get_text(raw, "streak");
        let csystem = get_text(raw, "csystem");
        let cclass = get_lenient_i32(raw, "cclass");
        let spacegroup = get_lenient_i32(raw, "spacegroup");
        let spacegroupset = get_text(raw, "spacegroupset");
        let a = get_text(raw, "a");
        let b = get_text(raw, "b");
        let c = get_text(raw, "c");
        let alpha = get_text(raw, "alpha");
        let beta = get_text(raw, "beta");
        let gamma = get_text(raw, "gamma");
        let va3 = get_lenient_decimal(raw, "va3");
        let z = get_lenient_i32(raw, "z");
        let dmeas = get_text(raw, "dmeas");
        let dmeas2 = get_text(raw, "dmeas2");
        let dcalc = get_text(raw, "dcalc");
        let fracturetype = get_text(raw, "fracturetype");
        let morphology = get_text(raw, "morphology");
        let twinning = get_text(raw, "twinning");
        let epitaxidescription = get_text(raw, "epitaxidescription");
        let opticaltype = get_text(raw, "opticaltype");
        let opticalsign = get_text(raw, "opticalsign");
        let opticalalpha = get_text(raw, "opticalalpha");
        let opticalbeta = get_text(raw, "opticalbeta");
        let opticalgamma = get_text(raw, "opticalgamma");
        let opticalomega = get_text(raw, "opticalomega");
        let opticalepsilon = get_text(raw, "opticalepsilon");
        let opticaln = get_text(raw, "opticaln");
        let optical2vcalc = get_text(raw, "optical2vcalc");
        let optical2vmeasured = get_text(raw, "optical2vmeasured");
        let opticaldispersion = get_text(raw, "opticaldispersion");
        let opticalpleochroism = get_text(raw, "opticalpleochroism");
        let opticalpleochorismdesc = get_text(raw, "opticalpleochorismdesc");
        let opticalbirefringence = get_text(raw, "opticalbirefringence");
        let opticalcomments = get_text(raw, "opticalcomments");
        let opticalcolour = get_text(raw, "opticalcolour");
        let opticalinternal = get_text(raw, "opticalinternal");
        let opticaltropic = get_text(raw, "opticaltropic");
        let opticalanisotropism = get_text(raw, "opticalanisotropism");
        let opticalbireflectance = get_text(raw, "opticalbireflectance");
        let opticalr = get_text(raw, "opticalr");
        let rimin = get_lenient_decimal(raw, "rimin");
        let rimax = get_lenient_decimal(raw, "rimax");
        let uv = get_text(raw, "uv");
        let ir = get_text(raw, "ir");
        let magnetism = get_text(raw, "magnetism");
        let type_specimen_store = get_text(raw, "type_specimen_store");
        let shortcode_ima = get_text(raw, "shortcode_ima");
        let strunz10ed1 = get_text(raw, "strunz10ed1");
        let strunz10ed2 = get_text(raw, "strunz10ed2");
        let strunz10ed3 = get_text(raw, "strunz10ed3");
        let strunz10ed4 = get_text(raw, "strunz10ed4");
        let dana8ed1 = get_text(raw, "dana8ed1");
        let dana8ed2 = get_text(raw, "dana8ed2");
        let dana8ed3 = get_text(raw, "dana8ed3");
        let dana8ed4 = get_text(raw, "dana8ed4");
        let thermalbehaviour = get_text(raw, "thermalbehaviour");
        let electrical = get_text(raw, "electrical");
        let rock_parent = get_lenient_i32(raw, "rock_parent");
        let rock_parent2 = get_lenient_i32(raw, "rock_parent2");
        let rock_root = get_lenient_i32(raw, "rock_root");
        let rock_bgs_code = get_text(raw, "rock_bgs_code");
        let meteoritical_code = get_text(raw, "meteoritical_code");
        let weighting = get_lenient_i32(raw, "weighting");
        let relations = get_lenient_records::<Relation>(raw, "relations");
        let minstats = get_optional_record::<MinStats>(raw, "minstats");
        let locality = get_lenient_ints(raw, "locality");
        let type_localities = get_lenient_ints(raw, "type_localities");
        Some(Geomaterial {
            id,
            longid,
            guid,
            name,
            updttime,
            mindat_formula,
            mindat_formula_note,
            ima_formula,
            ima_status,
            ima_notes,
            varietyof,
            synid,
            polytypeof,
            groupid,
            entrytype,
            entrytype_text,
            description_short,
            impurities,
            elements,
            sigelements,
            key_elements,
            tlform,
            cim,
            occurrence,
            otheroccurrence,
            industrial,
            discovery_year,
            approval_year,
            publication_year,
            ima_history,
            diapheny,
            cleavage,
            cleavagetype,
            parting,
            tenacity,
            colour,
            csmetamict,
            opticalextinction,
            hmin,
            hmax,
            hardtype,
            vhnmin,
            vhnmax,
            vhnerror,
            vhng,
            vhns,
            luminescence,
            lustre,
            lustretype,
            aboutname,
            other,
            streak,
            csystem,
            cclass,
            spacegroup,
            spacegroupset,
            a,
            b,
            c,
            alpha,
            beta,
            gamma,
            va3,
            z,
            dmeas,
            dmeas2,
            dcalc,
            fracturetype,
            morphology,
            twinning,
            epitaxidescription,
            opticaltype,
            opticalsign,
            opticalalpha,
            opticalbeta,
            opticalgamma,
            opticalomega,
            opticalepsilon,
            opticaln,
            optical2vcalc,
            optical2vmeasured,
            opticaldispersion,
            opticalpleochroism,
            opticalpleochorismdesc,
            opticalbirefringence,
            opticalcomments,
            opticalcolour,
            opticalinternal,
            opticaltropic,
            opticalanisotropism,
            opticalbireflectance,
            opticalr,
            rimin,
            rimax,
            uv,
            ir,
            magnetism,
            type_specimen_store,
            shortcode_ima,
            strunz10ed1,
            strunz10ed2,
            strunz10ed3,
            strunz10ed4,
            dana8ed1,
            dana8ed2,
            dana8ed3,
            dana8ed4,
            thermalbehaviour,
            electrical,
            rock_parent,
            rock_parent2,
            rock_root,
            rock_bgs_code,
            meteoritical_code,
            weighting,
            relations,
            minstats,
            locality,
            type_localities,
        })
    }
}

/// Builder for geomaterial query parameters.
///
/// Filters that upstream has no parameter for (`ima_status`, `ima_notes`,
/// `entrytype`, the classification lists, `opticaltype`, `opticalsign`,
/// `id_in`, `expand`) are kept in the query and not sent.
#[derive(Debug, Clone)]
pub struct GeomaterialsQuery {
    /// Name filter (supports wildcards * and _).
    pub name: Option<String>,
    /// Search query.
    pub q: Option<String>,
    /// IMA approved only.
    pub ima: Option<bool>,
    /// IMA status filter.
    pub ima_status: Option<Vec<ImaStatus>>,
    /// IMA notes filter.
    pub ima_notes: Option<Vec<ImaNotes>>,
    /// Entry types filter.
    pub entrytype: Option<Vec<u8>>,
    /// Include elements (comma-separated).
    pub elements_inc: Option<String>,
    /// Exclude elements (comma-separated).
    pub elements_exc: Option<String>,
    /// Crystal system filter.
    pub crystal_system: Option<Vec<CrystalSystem>>,
    /// Cleavage type filter.
    pub cleavagetype: Option<Vec<CleavageType>>,
    /// Fracture type filter.
    pub fracturetype: Option<Vec<FractureType>>,
    /// Lustre type filter.
    pub lustretype: Option<Vec<LustreType>>,
    /// Diapheny (transparency) filter.
    pub diapheny: Option<Vec<Diapheny>>,
    /// Tenacity filter.
    pub tenacity: Option<Vec<Tenacity>>,
    /// Colour filter.
    pub colour: Option<String>,
    /// Streak filter.
    pub streak: Option<String>,
    /// Optical type filter.
    pub opticaltype: Option<OpticalType>,
    /// Optical sign filter.
    pub opticalsign: Option<OpticalSign>,
    /// Hardness minimum (Mohs).
    pub hardness_min: Option<Decimal>,
    /// Hardness maximum (Mohs).
    pub hardness_max: Option<Decimal>,
    /// Density minimum.
    pub density_min: Option<Decimal>,
    /// Density maximum.
    pub density_max: Option<Decimal>,
    /// Refractive index minimum.
    pub ri_min: Option<Decimal>,
    /// Refractive index maximum.
    pub ri_max: Option<Decimal>,
    /// Birefringence minimum.
    pub bi_min: Option<String>,
    /// Birefringence maximum.
    pub bi_max: Option<String>,
    /// 2V minimum.
    pub optical2v_min: Option<String>,
    /// 2V maximum.
    pub optical2v_max: Option<String>,
    /// Variety of (geomaterial ID).
    pub varietyof: Option<i32>,
    /// Synonym of (geomaterial ID).
    pub synid: Option<i32>,
    /// Polytype of (geomaterial ID).
    pub polytypeof: Option<i32>,
    /// Group ID.
    pub groupid: Option<i32>,
    /// Filter by IDs.
    pub id_in: Option<Vec<i32>>,
    /// Include non-UTF names.
    pub non_utf: Option<bool>,
    /// Meteoritical code filter.
    pub meteoritical_code: Option<String>,
    /// Meteoritical code exists.
    pub meteoritical_code_exists: Option<bool>,
    /// Updated after datetime.
    pub updated_at: Option<String>,
    /// Fields to include.
    pub fields: Option<String>,
    /// Fields to omit.
    pub omit: Option<String>,
    /// Fields to expand.
    pub expand: Option<Vec<String>>,
    /// Ordering.
    pub ordering: Option<GeomaterialsOrdering>,
    /// Page number.
    pub page: Option<i32>,
    /// Page size.
    pub page_size: Option<i32>,
}

impl GeomaterialsQuery {
    /// The query with no filter set.
    pub open spec fn empty() -> GeomaterialsQuery {
        GeomaterialsQuery {
            name: None,
            q: None,
            ima: None,
            ima_status: None,
            ima_notes: None,
            entrytype: None,
            elements_inc: None,
            elements_exc: None,
            crystal_system: None,
            cleavagetype: None,
            fracturetype: None,
            lustretype: None,
            diapheny: None,
            tenacity: None,
            colour: None,
            streak: None,
            opticaltype: None,
            opticalsign: None,
            hardness_min: None,
            hardness_max: None,
            density_min: None,
            density_max: None,
            ri_min: None,
            ri_max: None,
            bi_min: None,
            bi_max: None,
            optical2v_min: None,
            optical2v_max: None,
            varietyof: None,
            synid: None,
            polytypeof: None,
            groupid: None,
            id_in: None,
            non_utf: None,
            meteoritical_code: None,
            meteoritical_code_exists: None,
            updated_at: None,
            fields: None,
            omit: None,
            expand: None,
            ordering: None,
            page: None,
            page_size: None,
        }
    }

    /// The parameters that this query sends, in the order in which they are
    /// written. A filter that is not set sends none.
    pub open spec fn params(self) -> Seq<(Seq<char>, Seq<char>)> {
        Seq::empty()
            + text_param("name"@, self.name)
            + text_param("q"@, self.q)
            + bool_param("ima"@, self.ima)
            + text_param("elements_inc"@, self.elements_inc)
            + text_param("elements_exc"@, self.elements_exc)
            + text_param("colour"@, self.colour)
            + text_param("streak"@, self.streak)
            + decimal_param("hardness_min"@, self.hardness_min)
            + decimal_param("hardness_max"@, self.hardness_max)
            + decimal_param("density_min"@, self.density_min)
            + decimal_param("density_max"@, self.density_max)
            + decimal_param("ri_min"@, self.ri_min)
            + decimal_param("ri_max"@, self.ri_max)
            + text_param("bi_min"@, self.bi_min)
            + text_param("bi_max"@, self.bi_max)
            + text_param("optical2v_min"@, self.optical2v_min)
            + text_param("optical2v_max"@, self.optical2v_max)
            + int_param("varietyof"@, self.varietyof)
            + int_param("synid"@, self.synid)
            + int_param("polytypeof"@, self.polytypeof)
            + int_param("groupid"@, self.groupid)
            + bool_param("non_utf"@, self.non_utf)
            + text_param("meteoritical_code"@, self.meteoritical_code)
            + bool_param("meteoritical_code_exists"@, self.meteoritical_code_exists)
            + text_param("updated_at"@, self.updated_at)
            + text_param("fields"@, self.fields)
            + text_param("omit"@, self.omit)
            + ordering_param("ordering"@, self.ordering)
            + int_param("page"@, self.page)
            + int_param("page_size"@, self.page_size)
    }

    /// Create a new empty query.
    pub fn new() -> (query: Self)
        ensures
            query == GeomaterialsQuery::empty(),
    {
        GeomaterialsQuery {
            name: None,
            q: None,
            ima: None,
            ima_status: None,
            ima_notes: None,
            entrytype: None,
            elements_inc: None,
            elements_exc: None,
            crystal_system: None,
            cleavagetype: None,
            fracturetype: None,
            lustretype: None,
            diapheny: None,
            tenacity: None,
            colour: None,
            streak: None,
            opticaltype: None,
            opticalsign: None,
            hardness_min: None,
            hardness_max: None,
            density_min: None,
            density_max: None,
            ri_min: None,
            ri_max: None,
            bi_min: None,
            bi_max: None,
            optical2v_min: None,
            optical2v_max: None,
            varietyof: None,
            synid: None,
            polytypeof: None,
            groupid: None,
            id_in: None,
            non_utf: None,
            meteoritical_code: None,
            meteoritical_code_exists: None,
            updated_at: None,
            fields: None,
            omit: None,
            expand: None,
            ordering: None,
            page: None,
            page_size: None,
        }
    }

    /// Filter by name (supports * and _ wildcards).
    pub fn name(self, name: &str) -> (query: Self)
        ensures
            query.name matches Some(v) && v@ == name@,
            query == (GeomaterialsQuery { name: query.name, ..self }),
    {
        let mut query = self;
        query.name = Some(name.to_owned());
        query
    }

    /// Search query.
    pub fn search(self, q: &str) -> (query: Self)
        ensures
            query.q matches Some(v) && v@ == q@,
            query == (GeomaterialsQuery { q: query.q, ..self }),
    {
        let mut query = self;
        query.q = Some(q.to_owned());
        query
    }

    /// Filter to IMA-approved minerals only.
    pub fn ima_approved(self, approved: bool) -> (query: Self)
        ensures
            query.ima == Some(approved),
            query == (GeomaterialsQuery { ima: query.ima, ..self }),
    {
        let mut query = self;
        query.ima = Some(approved);
        query
    }

    /// Filter by entry type.
    pub fn entry_types(self, types: Vec<u8>) -> (query: Self)
        ensures
            query.entrytype == Some(types),
            query == (GeomaterialsQuery { entrytype: query.entrytype, ..self }),
    {
        let mut query = self;
        query.entrytype = Some(types);
        query
    }

    /// Filter by included elements.
    pub fn with_elements(self, elements: &str) -> (query: Self)
        ensures
            query.elements_inc matches Some(v) && v@ == elements@,
            query == (GeomaterialsQuery { elements_inc: query.elements_inc, ..self }),
    {
        let mut query = self;
        query.elements_inc = Some(elements.to_owned());
        query
    }

    /// Filter by excluded elements.
    pub fn without_elements(self, elements: &str) -> (query: Self)
        ensures
            query.elements_exc matches Some(v) && v@ == elements@,
            query == (GeomaterialsQuery { elements_exc: query.elements_exc, ..self }),
    {
        let mut query = self;
        query.elements_exc = Some(elements.to_owned());
        query
    }

    /// Filter by crystal system.
    pub fn crystal_systems(self, systems: Vec<CrystalSystem>) -> (query: Self)
        ensures
            query.crystal_system == Some(systems),
            query == (GeomaterialsQuery { crystal_system: query.crystal_system, ..self }),
    {
        let mut query = self;
        query.crystal_system = Some(systems);
        query
    }

    /// Filter by hardness range. Both bounds are set together.
    pub fn hardness_range(self, min: Decimal, max: Decimal) -> (query: Self)
        ensures
            query.hardness_min == Some(min),
            query.hardness_max == Some(max),
            query == (GeomaterialsQuery { hardness_min: query.hardness_min, hardness_max: query.hardness_max, ..self }),
    {
        let mut query = self;
        query.hardness_min = Some(min);
        query.hardness_max = Some(max);
        query
    }

    /// Filter by density range. Both bounds are set together.
    pub fn density_range(self, min: Decimal, max: Decimal) -> (query: Self)
        ensures
            query.density_min == Some(min),
            query.density_max == Some(max),
            query == (GeomaterialsQuery { density_min: query.density_min, density_max: query.density_max, ..self }),
    {
        let mut query = self;
        query.density_min = Some(min);
        query.density_max = Some(max);
        query
    }

    /// Select specific fields.
    pub fn select_fields(self, fields: &str) -> (query: Self)
        ensures
            query.fields matches Some(v) && v@ == fields@,
            query == (GeomaterialsQuery { fields: query.fields, ..self }),
    {
        let mut query = self;
        query.fields = Some(fields.to_owned());
        query
    }

    /// Omit specific fields.
    pub fn omit_fields(self, fields: &str) -> (query: Self)
        ensures
            query.omit matches Some(v) && v@ == fields@,
            query == (GeomaterialsQuery { omit: query.omit, ..self }),
    {
        let mut query = self;
        query.omit = Some(fields.to_owned());
        query
    }

    /// Expand related fields.
    pub fn expand_fields(self, fields: Vec<String>) -> (query: Self)
        ensures
            query.expand == Some(fields),
            query == (GeomaterialsQuery { expand: query.expand, ..self }),
    {
        let mut query = self;
        query.expand = Some(fields);
        query
    }

    /// Set ordering.
    pub fn order_by(self, ordering: GeomaterialsOrdering) -> (query: Self)
        ensures
            query.ordering == Some(ordering),
            query == (GeomaterialsQuery { ordering: query.ordering, ..self }),
    {
        let mut query = self;
        query.ordering = Some(ordering);
        query
    }

    /// Set page number.
    pub fn page(self, page: i32) -> (query: Self)
        ensures
            query.page == Some(page),
            query == (GeomaterialsQuery { page: query.page, ..self }),
    {
        let mut query = self;
        query.page = Some(page);
        query
    }

    /// Set page size.
    pub fn page_size(self, size: i32) -> (query: Self)
        ensures
            query.page_size == Some(size),
            query == (GeomaterialsQuery { page_size: query.page_size, ..self }),
    {
        let mut query = self;
        query.page_size = Some(size);
        query
    }

    /// The parameters that this query sends.
    pub fn to_params(&self) -> (out: Vec<(String, String)>)
        ensures
            pairs_view(out@) == self.params(),
    {
        let mut out: Vec<(String, String)> = Vec::new();
        assert(pairs_view(out@) =~= Seq::empty());
        push_text(&mut out, "name", &self.name);
        push_text(&mut out, "q", &self.q);
        push_bool(&mut out, "ima", self.ima);
        push_text(&mut out, "elements_inc", &self.elements_inc);
        push_text(&mut out, "elements_exc", &self.elements_exc);
        push_text(&mut out, "colour", &self.colour);
        push_text(&mut out, "streak", &self.streak);
        push_decimal(&mut out, "hardness_min", &self.hardness_min);
        push_decimal(&mut out, "hardness_max", &self.hardness_max);
        push_decimal(&mut out, "density_min", &self.density_min);
        push_decimal(&mut out, "density_max", &self.density_max);
        push_decimal(&mut out, "ri_min", &self.ri_min);
        push_decimal(&mut out, "ri_max", &self.ri_max);
        push_text(&mut out, "bi_min", &self.bi_min);
        push_text(&mut out, "bi_max", &self.bi_max);
        push_text(&mut out, "optical2v_min", &self.optical2v_min);
        push_text(&mut out, "optical2v_max", &self.optical2v_max);
        push_int(&mut out, "varietyof", self.varietyof);
        push_int(&mut out, "synid", self.synid);
        push_int(&mut out, "polytypeof", self.polytypeof);
        push_int(&mut out, "groupid", self.groupid);
        push_bool(&mut out, "non_utf", self.non_utf);
        push_text(&mut out, "meteoritical_code", &self.meteoritical_code);
        push_bool(&mut out, "meteoritical_code_exists", self.meteoritical_code_exists);
        push_text(&mut out, "updated_at", &self.updated_at);
        push_text(&mut out, "fields", &self.fields);
        push_text(&mut out, "omit", &self.omit);
        push_ordering(&mut out, "ordering", self.ordering);
        push_int(&mut out, "page", self.page);
        push_int(&mut out, "page_size", self.page_size);
        out
    }

    /// A query with no filter set sends no parameter.
    pub proof fn lemma_empty_sends_nothing()
        ensures
            GeomaterialsQuery::empty().params() == Seq::<(Seq<char>, Seq<char>)>::empty(),
    {
        assert(GeomaterialsQuery::empty().params() =~= Seq::empty());
    }

    /// A query with only a name and the IMA flag set sends exactly those two
    /// parameters, `name` first, and no other.
    pub proof fn lemma_name_and_ima_only(query: GeomaterialsQuery, name: String, approved: bool)
        requires
            query == (GeomaterialsQuery {
                name: Some(name),
                ima: Some(approved),
                ..GeomaterialsQuery::empty()
            }),
        ensures
            query.params() == seq![("name"@, name@), ("ima"@, bool_text(approved))],
    {
        assert(query.params() =~= seq![("name"@, name@), ("ima"@, bool_text(approved))]);
    }
}

impl Default for GeomaterialsQuery {
    fn default() -> (query: Self)
        ensures
            query == GeomaterialsQuery::empty(),
    {
        GeomaterialsQuery::new()
    }
}

} // verus!
