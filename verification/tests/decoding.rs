use mindat_rs::{
    deserialize_optional_f32, deserialize_optional_f64, deserialize_optional_i16,
    deserialize_optional_i32, deserialize_optional_u32, deserialize_optional_vec,
    deserialize_optional_vec_i32, deserialize_optional_vec_string, handle_response, Country,
    CursorPaginatedResponse, FromJson, GeoJsonFeature, GeoJsonFeatureCollection, GeoJsonGeometry,
    GeoRegion, GeoRegionProperties, Geomaterial, ImaMaterial, Locality, LocalityAge,
    LocalityStatus, LocalityType, MinStats, MindatError, PaginatedResponse, Relation,
};
use serde_json::Value;

fn json(text: &str) -> Value {
    serde_json::from_str(text).unwrap()
}

fn as_number(value: &Value) -> Option<f64> {
    deserialize_optional_f64(value).map(|d| d.as_str().parse::<f64>().unwrap())
}

#[test]
fn a_blank_number_is_absent() {
    assert_eq!(as_number(&json("\"\"")), None);
    assert_eq!(as_number(&json("\"7.5\"")), Some(7.5));
    assert_eq!(as_number(&json("7.5")), Some(7.5));
    assert_eq!(as_number(&json("null")), None);
}

#[test]
fn a_real_number_is_read_from_any_number_and_from_numeric_text() {
    assert_eq!(as_number(&json("7")), Some(7.0));
    assert_eq!(as_number(&json("-19.0")), Some(-19.0));
    assert_eq!(as_number(&json("1e300")), Some(1e300));
    assert_eq!(as_number(&json("18446744073709551615")), Some(18446744073709551615.0));
    assert_eq!(as_number(&json("\"1e3\"")), Some(1000.0));
    assert_eq!(as_number(&json("\"seven\"")), None);
    assert_eq!(as_number(&json("true")), None);
    assert_eq!(as_number(&json("[7.5]")), None);
    assert_eq!(as_number(&json("{}")), None);
    assert_eq!(
        deserialize_optional_f32(&json("\"6.5\"")).map(|d| d.as_str().parse::<f32>().unwrap()),
        Some(6.5)
    );
    assert_eq!(deserialize_optional_f32(&json("\"\"")), None);
}

#[test]
fn a_number_keeps_the_text_that_the_parser_writes() {
    assert_eq!(deserialize_optional_f64(&json("7")).unwrap().as_str(), "7");
    assert_eq!(deserialize_optional_f64(&json("7.0")).unwrap().as_str(), "7.0");
    assert_eq!(deserialize_optional_f64(&json("-0")).unwrap().as_str(), "-0.0");
    assert_eq!(deserialize_optional_f64(&json("\"+7.50\"")).unwrap().as_str(), "+7.50");
}

#[test]
fn an_integer_is_read_from_a_number_or_from_numeric_text() {
    assert_eq!(deserialize_optional_i32(&json("12")), Some(12));
    assert_eq!(deserialize_optional_i32(&json("-12")), Some(-12));
    assert_eq!(deserialize_optional_i32(&json("\"12\"")), Some(12));
    assert_eq!(deserialize_optional_i32(&json("\"-12\"")), Some(-12));
    assert_eq!(deserialize_optional_i32(&json("\"\"")), None);
    assert_eq!(deserialize_optional_i32(&json("null")), None);
    assert_eq!(deserialize_optional_i32(&json("\"twelve\"")), None);
    assert_eq!(deserialize_optional_i32(&json("\"12.0\"")), None);
    assert_eq!(deserialize_optional_i32(&json("\"2147483648\"")), None);
}

#[test]
fn a_value_of_another_shape_is_absent() {
    assert_eq!(deserialize_optional_i32(&json("7.5")), None);
    assert_eq!(deserialize_optional_i32(&json("7.0")), None);
    assert_eq!(deserialize_optional_i32(&json("true")), None);
    assert_eq!(deserialize_optional_i32(&json("[1]")), None);
    assert_eq!(deserialize_optional_i32(&json("{\"a\":1}")), None);
    assert_eq!(deserialize_optional_i32(&json("18446744073709551615")), None);
    assert_eq!(deserialize_optional_u32(&json("-1")), None);
    assert_eq!(deserialize_optional_u32(&json("1.5")), None);
    assert_eq!(deserialize_optional_i16(&json("false")), None);
}

#[test]
fn a_number_too_wide_is_narrowed_as_a_cast_narrows() {
    assert_eq!(deserialize_optional_i32(&json("3000000000")), Some(3000000000i64 as i32));
    assert_eq!(deserialize_optional_i32(&json("4294967296")), Some(0));
    assert_eq!(deserialize_optional_i32(&json("-2147483649")), Some(2147483647));
    assert_eq!(deserialize_optional_i16(&json("65537")), Some(1));
    assert_eq!(deserialize_optional_i16(&json("\"65537\"")), None);
    assert_eq!(deserialize_optional_u32(&json("4294967297")), Some(1));
    assert_eq!(deserialize_optional_u32(&json("\"4294967297\"")), None);
    assert_eq!(deserialize_optional_u32(&json("18446744073709551615")), Some(u32::MAX));
}

#[test]
fn the_narrower_integers_are_read_alike() {
    assert_eq!(deserialize_optional_i16(&json("12")), Some(12));
    assert_eq!(deserialize_optional_i16(&json("\"-12\"")), Some(-12));
    assert_eq!(deserialize_optional_i16(&json("\"\"")), None);
    assert_eq!(deserialize_optional_u32(&json("1998")), Some(1998));
    assert_eq!(deserialize_optional_u32(&json("\"1998\"")), Some(1998));
    assert_eq!(deserialize_optional_u32(&json("\"+1998\"")), Some(1998));
    assert_eq!(deserialize_optional_u32(&json("\"-1998\"")), None);
    assert_eq!(deserialize_optional_u32(&json("\"\"")), None);
}

#[test]
fn a_bare_string_is_a_list_of_one_string() {
    assert_eq!(deserialize_optional_vec_string(&json("\"Au\"")), Some(vec!["Au".to_string()]));
    assert_eq!(deserialize_optional_vec_string(&json("\"\"")), None);
    assert_eq!(
        deserialize_optional_vec_string(&json("[\"Au\",\"Ag\"]")),
        Some(vec!["Au".to_string(), "Ag".to_string()])
    );
    assert_eq!(deserialize_optional_vec_string(&json("[]")), Some(vec![]));
    assert_eq!(deserialize_optional_vec_string(&json("null")), None);
    assert_eq!(deserialize_optional_vec_string(&json("[\"Au\",1]")), None);
    assert_eq!(deserialize_optional_vec_string(&json("12")), None);
}

#[test]
fn a_bare_string_is_no_list_of_integers() {
    assert_eq!(deserialize_optional_vec_i32(&json("[1,-2,3]")), Some(vec![1, -2, 3]));
    assert_eq!(deserialize_optional_vec_i32(&json("[]")), Some(vec![]));
    assert_eq!(deserialize_optional_vec_i32(&json("\"12\"")), None);
    assert_eq!(deserialize_optional_vec_i32(&json("\"\"")), None);
    assert_eq!(deserialize_optional_vec_i32(&json("null")), None);
    assert_eq!(deserialize_optional_vec_i32(&json("[1,\"2\"]")), None);
    assert_eq!(deserialize_optional_vec_i32(&json("[1,2.5]")), None);
    assert_eq!(deserialize_optional_vec_i32(&json("[3000000000]")), None);
}

#[test]
fn a_bare_string_is_no_list_of_records() {
    let relations = deserialize_optional_vec::<Relation>(&json(
        "[{\"mineral_id\":5,\"relation_type\":7,\"relation_type_text\":\"Polymorph\"}]",
    ))
    .unwrap();
    assert_eq!(relations.len(), 1);
    assert_eq!(relations[0].mineral_id, 5);
    assert_eq!(relations[0].relation_type, 7);
    assert_eq!(relations[0].relation_type_text, "Polymorph");
    assert!(deserialize_optional_vec::<Relation>(&json("\"Polymorph\"")).is_none());
    assert!(deserialize_optional_vec::<Relation>(&json("\"\"")).is_none());
    assert!(deserialize_optional_vec::<Relation>(&json("null")).is_none());
    assert!(deserialize_optional_vec::<Relation>(&json("[{\"mineral_id\":5}]")).is_none());
}

#[test]
fn a_page_of_countries_is_decoded_in_order() {
    let body = "{\"count\":2,\"next\":null,\"previous\":null,\"results\":[\
        {\"id\":1,\"text\":\"United States\",\"continent\":\"NA\",\"iso\":\"US\",\"latdir\":\"N\",\"longdir\":\"W\"},\
        {\"id\":2,\"text\":\"Brazil\",\"continent\":\"SA\",\"iso\":\"BR\",\"latdir\":\"S\",\"longdir\":\"W\"}]}";
    let result: PaginatedResponse<Country> = handle_response(200, body.to_string()).unwrap();
    assert!(!result.has_next());
    assert!(!result.has_previous());
    assert_eq!(result.count, Some(2));
    assert_eq!(result.results.len(), 2);
    assert_eq!(result.results[0].id, 1);
    assert_eq!(result.results[0].text, "United States");
    assert_eq!(result.results[1].id, 2);
    assert_eq!(result.results[1].iso, "BR");
    assert_eq!(result.results[1].continent, "SA");
    assert_eq!(result.results[1].latdir, "S");
    assert_eq!(result.results[1].longdir, "W");
}

#[test]
fn a_geomaterial_is_decoded() {
    let body = "{\"id\":3337,\"name\":\"Quartz\",\"mindat_formula\":\"SiO2\",\"csystem\":\"Trigonal\",\
        \"hmin\":7.0,\"hmax\":0.0,\"ima_status\":[\"APPROVED\"],\"entrytype\":0}";
    let result: Geomaterial = handle_response(200, body.to_string()).unwrap();
    assert_eq!(result.id, 3337);
    assert_eq!(result.name, Some("Quartz".to_string()));
    assert_eq!(result.mindat_formula, Some("SiO2".to_string()));
    assert_eq!(result.csystem, Some("Trigonal".to_string()));
    assert_eq!(result.hmin.map(|d| d.as_str().parse::<f64>().unwrap()), Some(7.0));
    assert_eq!(result.hmax.map(|d| d.as_str().parse::<f64>().unwrap()), Some(0.0));
    assert_eq!(result.ima_status, Some(vec!["APPROVED".to_string()]));
    assert_eq!(result.entrytype, Some(0));
    assert_eq!(result.longid, None);
    assert_eq!(result.varietyof, None);
    assert!(result.relations.is_none());
    assert!(result.minstats.is_none());
}

#[test]
fn odd_fields_do_not_cost_the_record() {
    let body = "{\"id\":9,\"name\":12,\"varietyof\":\"\",\"synid\":\"17\",\"groupid\":true,\
        \"approval_year\":\"1998\",\"publication_year\":\"\",\"elements\":\"Si\",\"sigelements\":\"\",\
        \"key_elements\":[\"Si\",\"O\"],\"hmin\":\"\",\"hmax\":\"6.5\",\"va3\":\"n/a\",\
        \"relations\":\"\",\"locality\":\"\",\"type_localities\":[4,5],\
        \"minstats\":{\"ms_photos\":3,\"ms_locentries\":4,\"ms_photovotes\":5}}";
    let g: Geomaterial = handle_response(200, body.to_string()).unwrap();
    assert_eq!(g.id, 9);
    assert_eq!(g.name, None);
    assert_eq!(g.varietyof, None);
    assert_eq!(g.synid, Some(17));
    assert_eq!(g.groupid, None);
    assert_eq!(g.approval_year, Some(1998));
    assert_eq!(g.publication_year, None);
    assert_eq!(g.elements, Some(vec!["Si".to_string()]));
    assert_eq!(g.sigelements, None);
    assert_eq!(g.key_elements, Some(vec!["Si".to_string(), "O".to_string()]));
    assert!(g.hmin.is_none());
    assert_eq!(g.hmax.map(|d| d.to_string()), Some("6.5".to_string()));
    assert!(g.va3.is_none());
    assert!(g.relations.is_none());
    assert_eq!(g.locality, None);
    assert_eq!(g.type_localities, Some(vec![4, 5]));
    let stats: MinStats = g.minstats.unwrap();
    assert_eq!((stats.ms_photos, stats.ms_locentries, stats.ms_photovotes), (3, 4, 5));
}

#[test]
fn a_record_without_its_identifier_is_refused() {
    for body in [
        "{\"name\":\"Quartz\"}",
        "{\"id\":\"3337\"}",
        "{\"id\":null}",
        "{\"id\":3337.5}",
        "{\"id\":3000000000}",
        "[]",
        "3337",
        "null",
    ] {
        let r: Result<Geomaterial, MindatError> = handle_response(200, body.to_string());
        assert!(matches!(r, Err(MindatError::Deserialization(_))), "{}", body);
    }
}

#[test]
fn a_page_needs_results_that_can_all_be_read() {
    let r: Result<PaginatedResponse<Country>, MindatError> =
        handle_response(200, "{\"count\":0}".to_string());
    assert!(matches!(r, Err(MindatError::Deserialization(_))));
    let r: Result<PaginatedResponse<Country>, MindatError> =
        handle_response(200, "{\"results\":[{\"id\":1}]}".to_string());
    assert!(matches!(r, Err(MindatError::Deserialization(_))));
    let r: Result<CursorPaginatedResponse<Locality>, MindatError> =
        handle_response(200, "{\"results\":{}}".to_string());
    assert!(matches!(r, Err(MindatError::Deserialization(_))));
    let page: PaginatedResponse<Country> =
        handle_response(200, "{\"count\":\"many\",\"next\":7,\"results\":[]}".to_string()).unwrap();
    assert_eq!(page.count, None);
    assert_eq!(page.next, None);
    assert_eq!(page.results.len(), 0);
}

#[test]
fn a_page_of_localities_is_decoded() {
    let body = "{\"next\":null,\"previous\":null,\"results\":[\
        {\"id\":100,\"txt\":\"Minas Gerais\",\"country\":\"Brazil\",\"latitude\":-19.0,\"longitude\":-44.0}]}";
    let result: CursorPaginatedResponse<Locality> =
        handle_response(200, body.to_string()).unwrap();
    assert_eq!(result.results.len(), 1);
    assert_eq!(result.results[0].id, 100);
    assert_eq!(result.results[0].txt, Some("Minas Gerais".to_string()));
    assert_eq!(result.results[0].country, Some("Brazil".to_string()));
    let latitude = result.results[0].latitude.clone().unwrap();
    let longitude = result.results[0].longitude.clone().unwrap();
    assert_eq!(latitude.as_str().parse::<f64>().unwrap(), -19.0);
    assert_eq!(longitude.as_str().parse::<f64>().unwrap(), -44.0);
    assert!(!result.has_next());
    assert!(!result.has_previous());
}

#[test]
fn a_page_of_ima_minerals_is_decoded() {
    let body = "{\"count\":6000,\"next\":\"http://example.com/minerals-ima/?page=2\",\"previous\":null,\
        \"results\":[{\"id\":1,\"name\":\"Abelsonite\",\"ima_formula\":\"NiC31H32N4\",\"ima_symbol\":\"Abs\"}]}";
    let result: PaginatedResponse<ImaMaterial> = handle_response(200, body.to_string()).unwrap();
    assert_eq!(result.count, Some(6000));
    assert!(result.has_next());
    assert!(!result.has_previous());
    assert_eq!(result.results[0].name, Some("Abelsonite".to_string()));
    assert_eq!(result.results[0].ima_formula, Some("NiC31H32N4".to_string()));
    assert_eq!(result.results[0].ima_symbol, Some("Abs".to_string()));
    assert_eq!(result.total_pages(100), Some(60));
}

#[test]
fn the_locality_tables_are_decoded() {
    let age: LocalityAge = handle_response(
        200,
        "{\"age_id\":3,\"age_mav\":\"541.0\",\"age_pmv\":1,\"age_ma2v\":\"\",\"agemethod\":\"U-Pb\",\"ages1\":\"4\"}"
            .to_string(),
    )
    .unwrap();
    assert_eq!(age.age_id, 3);
    assert_eq!(age.age_mav.map(|d| d.as_str().parse::<f64>().unwrap()), Some(541.0));
    assert_eq!(age.age_pmv.map(|d| d.as_str().parse::<f64>().unwrap()), Some(1.0));
    assert!(age.age_ma2v.is_none());
    assert!(age.age_pm2v.is_none());
    assert_eq!(age.agemethod, Some("U-Pb".to_string()));
    assert_eq!(age.ages1, Some(4));
    assert_eq!(age.ages2, None);

    let status: LocalityStatus =
        handle_response(200, "{\"ls_id\":2,\"ls_text\":\"Abandoned\",\"ls_historical\":1}".to_string())
            .unwrap();
    assert_eq!((status.ls_id, status.ls_text.as_str()), (2, "Abandoned"));
    assert_eq!(status.ls_historical, Some(1));
    assert_eq!(status.ls_wide, None);
    let r: Result<LocalityStatus, MindatError> = handle_response(200, "{\"ls_id\":2}".to_string());
    assert!(matches!(r, Err(MindatError::Deserialization(_))));

    let kind: LocalityType = handle_response(
        200,
        "{\"lt_id\":5,\"lt_text\":\"Mine\",\"lt_parent\":\"\",\"lt_sortorder\":\"12\",\"lt_area\":0}"
            .to_string(),
    )
    .unwrap();
    assert_eq!((kind.lt_id, kind.lt_text.as_str()), (5, "Mine"));
    assert_eq!(kind.lt_parent, None);
    assert_eq!(kind.lt_sortorder, Some(12));
    assert_eq!(kind.lt_area, Some(0));

    let region: GeoRegion =
        handle_response(200, "{\"id\":8,\"lgr_revtxtd\":\"Alps\",\"lgr_non_hierarchical\":\"1\"}".to_string())
            .unwrap();
    assert_eq!(region.id, 8);
    assert_eq!(region.lgr_revtxtd, Some("Alps".to_string()));
    assert_eq!(region.lgr_updttime, None);
    assert_eq!(region.lgr_non_hierarchical, Some(1));
}

#[test]
fn a_feature_collection_is_decoded() {
    let body = "{\"type\":\"FeatureCollection\",\"features\":[\
        {\"type\":\"Feature\",\"id\":4,\"geometry\":{\"type\":\"Point\",\"coordinates\":[7.5,46]},\
         \"properties\":{\"lgr_revtxtd\":\"Alps\",\"lgr_updttime\":null,\"lgr_non_hierarchical\":\"\"}},\
        {\"type\":\"Feature\",\"geometry\":{\"type\":\"Circle\",\"coordinates\":[]},\"properties\":{}},\
        {\"type\":\"Feature\",\"geometry\":{\"type\":\"LineString\",\"coordinates\":[[0,1],[2,3]]},\"properties\":{}},\
        {\"type\":\"Feature\",\"geometry\":{\"type\":\"Polygon\",\"coordinates\":[[[0,0],[1,0],[0,0]]]},\"properties\":{}}]}";
    let all: GeoJsonFeatureCollection<GeoRegionProperties> =
        handle_response(200, body.to_string()).unwrap();
    assert_eq!(all.collection_type, "FeatureCollection");
    assert_eq!(all.features.len(), 4);
    let first: &GeoJsonFeature<GeoRegionProperties> = &all.features[0];
    assert_eq!(first.feature_type, "Feature");
    assert_eq!(first.id, Some(4));
    assert_eq!(first.properties.lgr_revtxtd, Some("Alps".to_string()));
    assert_eq!(first.properties.lgr_updttime, None);
    assert_eq!(first.properties.lgr_non_hierarchical, None);
    match &first.geometry {
        Some(GeoJsonGeometry::Point { coordinates }) => {
            let numbers: Vec<f64> =
                coordinates.iter().map(|d| d.as_str().parse::<f64>().unwrap()).collect();
            assert_eq!(numbers, vec![7.5, 46.0]);
        }
        other => panic!("no point: {:?}", other),
    }
    assert!(all.features[1].geometry.is_none());
    assert_eq!(all.features[1].id, None);
    assert!(matches!(
        &all.features[2].geometry,
        Some(GeoJsonGeometry::LineString { coordinates }) if coordinates.len() == 2
    ));
    assert!(matches!(
        &all.features[3].geometry,
        Some(GeoJsonGeometry::Polygon { coordinates }) if coordinates.len() == 1 && coordinates[0].len() == 3
    ));
    let r: Result<GeoJsonFeature<GeoRegionProperties>, MindatError> =
        handle_response(200, "{\"type\":\"Feature\",\"properties\":[]}".to_string());
    assert!(matches!(r, Err(MindatError::Deserialization(_))));
}

#[test]
fn a_document_is_handed_on_as_it_is() {
    let doc: Value = handle_response(200, "{\"groups\":[1,2,{\"a\":null}]}".to_string()).unwrap();
    assert_eq!(doc, json("{\"groups\":[1,2,{\"a\":null}]}"));
    let list: Vec<Value> = handle_response(200, "[{\"id\":1},\"x\"]".to_string()).unwrap();
    assert_eq!(list, vec![json("{\"id\":1}"), json("\"x\"")]);
    let r: Result<Vec<Value>, MindatError> = handle_response(200, "{}".to_string());
    assert!(matches!(r, Err(MindatError::Deserialization(_))));
    assert_eq!(Value::from_json(&json("[1]")), Some(json("[1]")));
}
