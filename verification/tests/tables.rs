use ourairports::airport_frequencies::get_airport_frequencies_csv;
use ourairports::airports::{get_airports_csv, Airport, AirportType};
use ourairports::continent::Continent;
use ourairports::countries::get_countries_csv;
use ourairports::error::ErrorKind;
use ourairports::navaids::{get_navaids_csv, NavaidPower, NavaidType, UsageType};
use ourairports::regions::get_regions_csv;
use ourairports::runways::get_runways_csv;
use ourairports::table::{find_column, load_records, Column};

const AIRPORTS: &str = "\
\"id\",\"ident\",\"type\",\"name\",\"latitude_deg\",\"longitude_deg\",\"elevation_ft\",\"continent\",\"iso_country\",\"iso_region\",\"municipality\",\"scheduled_service\",\"gps_code\",\"iata_code\",\"local_code\",\"home_link\",\"wikipedia_link\",\"keywords\"
6523,\"00A\",\"heliport\",\"Total RF Heliport\",40.070985,-74.933689,11,\"NA\",\"US\",\"US-PA\",\"Bensalem\",\"no\",\"K00A\",,\"00A\",\"https://www.penndot.pa.gov/TravelInPA/airports-pa/Pages/Total-RF-Heliport.aspx\",,
2434,\"EGLL\",\"large_airport\",\"London Heathrow Airport\",51.4706,-0.461941,83,\"EU\",\"GB\",\"GB-ENG\",\"London\",\"yes\",\"EGLL\",\"LHR\",,\"http://www.heathrowairport.com/\",\"https://en.wikipedia.org/wiki/Heathrow_Airport\",\"LON, Londres\"
35145,\"LLMZ\",\"closed\",\"Bar Yehuda Airfield\",31.328169,35.388608,-1266,\"AS\",\"IL\",\"IL-D\",\"Masada\",\"0\",\"LLMZ\",\"MTZ\",,,\"https://en.wikipedia.org/wiki/Bar_Yehuda_Airfield\",\"Masada, \"\"Dead Sea\"\"\"
";

const COUNTRIES: &str = "\
\"id\",\"code\",\"name\",\"continent\",\"wikipedia_link\",\"keywords\"
302791,\"BR\",\"Brazil\",\"SA\",\"https://en.wikipedia.org/wiki/Brazil\",\"Brasil, Brasilian\"
302672,\"AD\",\"Andorra\",\"EU\",\"https://en.wikipedia.org/wiki/Andorra\",\"Andorran airports\"
";

const REGIONS: &str = "\
\"id\",\"code\",\"local_code\",\"name\",\"continent\",\"iso_country\",\"wikipedia_link\",\"keywords\"
306408,\"GE-KA\",\"KA\",\"Kakheti\",\"AS\",\"GE\",\"https://en.wikipedia.org/wiki/Kakheti\",
302811,\"AD-02\",\"02\",\"Canillo\",\"EU\",\"AD\",\"https://en.wikipedia.org/wiki/Canillo\",
";

const FREQUENCIES: &str = "\
\"id\",\"airport_ref\",\"airport_ident\",\"type\",\"description\",\"frequency_mhz\"
54836,3347,\"HKJK\",\"TWR\",\"NAIROBI TWR\",118.7
70518,6528,\"00CA\",\"CTAF\",\"CTAF\",122.9
";

const RUNWAYS: &str = "\
\"id\",\"airport_ref\",\"airport_ident\",\"length_ft\",\"width_ft\",\"surface\",\"lighted\",\"closed\",\"le_ident\",\"le_latitude_deg\",\"le_longitude_deg\",\"le_elevation_ft\",\"le_heading_degT\",\"le_displaced_threshold_ft\",\"he_ident\",\"he_latitude_deg\",\"he_longitude_deg\",\"he_elevation_ft\",\"he_heading_degT\",\"he_displaced_threshold_ft\"
234512,1941,\"CYVR\",9940,200,\"CON\",1,0,\"08L\",49.2051,-123.201,14,99.9,,\"26R\",49.2004,-123.16,9,279.9,
269408,6523,\"00A\",80,80,\"ASPH-G\",1,0,\"H1\",,,,,,,,,,,
";

const NAVAIDS: &str = "\
\"id\",\"filename\",\"ident\",\"name\",\"type\",\"frequency_khz\",\"latitude_deg\",\"longitude_deg\",\"elevation_ft\",\"iso_country\",\"dme_frequency_khz\",\"dme_channel\",\"dme_latitude_deg\",\"dme_longitude_deg\",\"dme_elevation_ft\",\"slaved_variation_deg\",\"magnetic_variation_deg\",\"usageType\",\"power\",\"associated_airport\"
86738,\"Christchurch_VOR-DME_NZ\",\"CH\",\"Christchurch\",\"VOR-DME\",115300,-43.50410079956055,172.51499938964844,125,\"NZ\",115300,\"100X\",,,,23,24.444,\"BOTH\",\"HIGH\",\"NZCH\"
85050,\"Abakan_NDB_RU\",\"AK\",\"Abakan\",\"NDB\",1020,53.7,91.4,,\"RU\",,,,,,,,\"TERMINAL\",,
";

#[test]
fn airport_rows_decode() {
    let airports = get_airports_csv(AIRPORTS).unwrap();
    assert_eq!(airports.len(), 3);
    let heathrow: &Airport = airports.get(&2434).unwrap();
    assert_eq!(2434, heathrow.id());
    assert_eq!("EGLL", heathrow.ident());
    assert_eq!("LHR", heathrow.iata_code());
    assert_eq!(&AirportType::LargeAirport, heathrow.airport_type());
    assert_eq!("London Heathrow Airport", heathrow.name());
    assert_eq!("51.4706", heathrow.latitude_deg().as_str());
    assert_eq!("-0.461941", heathrow.longitude_deg().as_str());
    assert_eq!(Some(83), heathrow.elevation_ft());
    assert_eq!(&Continent::Europe, heathrow.continent());
    assert_eq!("GB", heathrow.iso_country());
    assert_eq!("GB-ENG", heathrow.iso_region());
    assert_eq!("London", heathrow.municipality());
    assert_eq!(true, heathrow.scheduled_service());
    assert_eq!("EGLL", heathrow.gps_code());
    assert_eq!("", heathrow.local_code());
    assert_eq!("http://www.heathrowairport.com/", heathrow.home_link());
    assert_eq!("https://en.wikipedia.org/wiki/Heathrow_Airport", heathrow.wikipedia_link());
    assert_eq!(&vec!["LON".to_string(), "Londres".to_string()], heathrow.keywords());
}

#[test]
fn airport_rows_decode_aliases_empty_cells_and_quotes() {
    let airports = get_airports_csv(AIRPORTS).unwrap();
    let total = airports.get(&6523).unwrap();
    assert_eq!(&AirportType::Heliport, total.airport_type());
    assert_eq!(false, total.scheduled_service());
    assert_eq!("", total.iata_code());
    assert!(total.keywords().is_empty());
    let masada = airports.get(&35145).unwrap();
    assert_eq!(&AirportType::ClosedAirport, masada.airport_type());
    assert_eq!(Some(-1266), masada.elevation_ft());
    assert_eq!(false, masada.scheduled_service());
    assert_eq!(&vec!["Masada".to_string(), "\"Dead Sea\"".to_string()], masada.keywords());
}

#[test]
fn country_rows_decode() {
    let countries = get_countries_csv(COUNTRIES).unwrap();
    let brazil = countries.get(&302791).unwrap();
    assert_eq!(302791, brazil.id());
    assert_eq!("Brazil", brazil.name());
    assert_eq!("BR", brazil.code());
    assert_eq!(&Continent::SouthAmerica, brazil.continent());
    assert_eq!("https://en.wikipedia.org/wiki/Brazil", brazil.wikipedia_link());
    assert_eq!(&vec!["Brasil".to_string(), "Brasilian".to_string()], brazil.keywords());
}

#[test]
fn region_rows_decode() {
    let regions = get_regions_csv(REGIONS).unwrap();
    let kakheti = regions.get(&306408).unwrap();
    assert_eq!(306408, kakheti.id());
    assert_eq!("GE", kakheti.iso_country());
    assert_eq!("KA", kakheti.local_code());
    assert_eq!(&format!("{}-{}", kakheti.iso_country(), kakheti.local_code()), kakheti.code());
    assert_eq!("Kakheti", kakheti.name());
    assert_eq!(&Continent::Asia, kakheti.continent());
    assert_eq!("https://en.wikipedia.org/wiki/Kakheti", kakheti.wikipedia_link());
    assert!(kakheti.keywords().is_empty());
}

#[test]
fn frequency_rows_decode() {
    let frequencies = get_airport_frequencies_csv(FREQUENCIES).unwrap();
    let tower = frequencies.get(&54836).unwrap();
    assert_eq!(54836, tower.id());
    assert_eq!(3347, tower.airport_ref());
    assert_eq!("HKJK", tower.airport_ident());
    assert_eq!("TWR", tower.frequency_type());
    assert_eq!("NAIROBI TWR", tower.description());
    assert_eq!("118.7", tower.frequency_mhz());
}

#[test]
fn runway_rows_decode() {
    let runways = get_runways_csv(RUNWAYS).unwrap();
    let runway = runways.get(&234512).unwrap();
    assert_eq!(234512, runway.id());
    assert_eq!(1941, runway.airport_ref());
    assert_eq!("CYVR", runway.airport_ident());
    assert_eq!(Some(9940), runway.length_ft());
    assert_eq!(Some(200), runway.width_ft());
    assert_eq!("CON", runway.surface());
    assert_eq!(true, runway.lighted());
    assert_eq!(false, runway.closed());
    assert_eq!("08L", runway.le_ident());
    assert_eq!("49.2051", runway.le_latitude_deg().unwrap().as_str());
    assert_eq!("-123.201", runway.le_longitude_deg().unwrap().as_str());
    assert_eq!(Some(14), runway.le_elevation_ft());
    assert_eq!("99.9", runway.le_heading_deg_true().unwrap().as_str());
    assert_eq!(None, runway.le_displaced_threshold_ft());
    assert_eq!("26R", runway.he_ident());
    assert_eq!("49.2004", runway.he_latitude_deg().unwrap().as_str());
    assert_eq!("-123.16", runway.he_longitude_deg().unwrap().as_str());
    assert_eq!(Some(9), runway.he_elevation_ft());
    assert_eq!("279.9", runway.he_heading_deg_true().unwrap().as_str());
    assert_eq!(None, runway.he_displaced_threshold_ft());
    let helipad = runways.get(&269408).unwrap();
    assert_eq!("", helipad.he_ident());
    assert!(helipad.le_latitude_deg().is_none());
    assert!(helipad.he_heading_deg_true().is_none());
    assert_eq!(None, helipad.le_elevation_ft());
}

#[test]
fn navaid_rows_decode() {
    let navaids = get_navaids_csv(NAVAIDS).unwrap();
    let navaid = navaids.get(&86738).unwrap();
    assert_eq!(86738, navaid.id());
    assert_eq!("Christchurch_VOR-DME_NZ", navaid.filename());
    assert_eq!("CH", navaid.ident());
    assert_eq!("Christchurch", navaid.name());
    assert_eq!(&NavaidType::VorDme, navaid.navaid_type());
    assert_eq!("115300", navaid.frequency_khz());
    assert_eq!("-43.50410079956055", navaid.latitude_deg().unwrap().as_str());
    assert_eq!("172.51499938964844", navaid.longitude_deg().unwrap().as_str());
    assert_eq!(Some(125), navaid.elevation_ft());
    assert_eq!("NZ", navaid.iso_country());
    assert_eq!("115300", navaid.dme_frequency_khz());
    assert_eq!("100X", navaid.dme_channel());
    assert!(navaid.dme_latitude_deg().is_none());
    assert!(navaid.dme_longitude_deg().is_none());
    assert_eq!(None, navaid.dme_elevation_ft());
    assert_eq!("23", navaid.slaved_variation_deg().unwrap().as_str());
    assert_eq!("24.444", navaid.magnetic_variation_deg().unwrap().as_str());
    assert_eq!("NZCH", navaid.associated_airport());
    assert_eq!(&UsageType::Both, navaid.usage_type().unwrap());
    assert_eq!(&NavaidPower::High, navaid.power().unwrap());
    let abakan = navaids.get(&85050).unwrap();
    assert_eq!(&NavaidType::Ndb, abakan.navaid_type());
    assert_eq!(&UsageType::Term, abakan.usage_type().unwrap());
    assert_eq!(None, abakan.power());
    assert_eq!(None, abakan.elevation_ft());
    assert_eq!("", abakan.associated_airport());
}

#[test]
fn an_empty_text_makes_an_empty_table() {
    assert!(get_airports_csv("").unwrap().is_empty());
    assert!(get_countries_csv("").unwrap().is_empty());
}

#[test]
fn a_header_alone_makes_an_empty_table() {
    assert!(get_countries_csv("id,code,name,continent,wikipedia_link,keywords\n").unwrap().is_empty());
    assert!(get_countries_csv("nothing,that,a,country,has\n").unwrap().is_empty());
}

#[test]
fn the_order_of_columns_does_not_matter() {
    let text = "keywords,name,id,continent,unknown,code,wikipedia_link\n\"a, b\",Andorra,302672,EU,ignored,AD,link\n";
    let countries = get_countries_csv(text).unwrap();
    let andorra = countries.get(&302672).unwrap();
    assert_eq!("AD", andorra.code());
    assert_eq!("Andorra", andorra.name());
    assert_eq!(&Continent::Europe, andorra.continent());
    assert_eq!("link", andorra.wikipedia_link());
    assert_eq!(&vec!["a".to_string(), "b".to_string()], andorra.keywords());
}

#[test]
fn a_later_row_replaces_an_earlier_one_of_the_same_id() {
    let text = "id,code,name,continent,wikipedia_link,keywords\n1,AA,First,EU,,\n2,BB,Other,AS,,\n1,CC,Second,AF,,\n";
    let countries = get_countries_csv(text).unwrap();
    assert_eq!(countries.len(), 2);
    assert_eq!("Second", countries.get(&1).unwrap().name());
    assert_eq!("CC", countries.get(&1).unwrap().code());
    assert_eq!("Other", countries.get(&2).unwrap().name());
}

#[test]
fn tables_are_walked_in_ascending_order_of_id() {
    let airports = get_airports_csv(AIRPORTS).unwrap();
    let ids: Vec<u64> = airports.values().map(|a| a.id()).collect();
    assert_eq!(ids, vec![2434, 6523, 35145]);
    let keys: Vec<u64> = airports.keys().copied().collect();
    assert_eq!(keys, ids);
}

#[test]
fn records_are_equal_where_their_ids_are() {
    let first = get_countries_csv("id,code,name,continent,wikipedia_link,keywords\n1,AA,First,EU,,\n2,BB,Other,AS,,\n").unwrap();
    let second = get_countries_csv("id,code,name,continent,wikipedia_link,keywords\n1,CC,Second,AF,,x\n").unwrap();
    assert!(first.get(&1).unwrap() == second.get(&1).unwrap());
    assert!(first.get(&1).unwrap() != first.get(&2).unwrap());
    assert!(first.get(&1).unwrap() < first.get(&2).unwrap());
    assert!(first.get(&2).unwrap() > second.get(&1).unwrap());
    assert!(first.get(&1).unwrap() <= second.get(&1).unwrap());
}

#[test]
fn an_unknown_airport_type_fails_the_whole_load() {
    let text = AIRPORTS.replace("\"large_airport\"", "\"ufo_pad\"");
    let e = get_airports_csv(&text).unwrap_err();
    assert_eq!(e.kind, ErrorKind::UnknownCode);
    assert_eq!(e.column, "type");
    assert_eq!(e.value, "ufo_pad");
    assert_eq!(e.row, 2);
}

#[test]
fn a_bad_boolean_fails_the_load() {
    let text = AIRPORTS.replace("\"yes\"", "\"maybe\"");
    let e = get_airports_csv(&text).unwrap_err();
    assert_eq!(e.kind, ErrorKind::InvalidBoolean);
    assert_eq!(e.column, "scheduled_service");
    assert_eq!(e.value, "maybe");
    assert_eq!(e.row, 2);
}

#[test]
fn a_malformed_number_fails_the_load() {
    let e = get_airports_csv(&AIRPORTS.replace(",83,", ",83ft,")).unwrap_err();
    assert_eq!((e.kind, e.column.as_str(), e.value.as_str(), e.row), (ErrorKind::InvalidInteger, "elevation_ft", "83ft", 2));
    let e = get_airports_csv(&AIRPORTS.replace("51.4706", "51°28'")).unwrap_err();
    assert_eq!((e.kind, e.column.as_str(), e.value.as_str(), e.row), (ErrorKind::InvalidDecimal, "latitude_deg", "51°28'", 2));
    let e = get_airports_csv(&AIRPORTS.replace("6523,", "x6523,")).unwrap_err();
    assert_eq!((e.kind, e.column.as_str(), e.value.as_str(), e.row), (ErrorKind::InvalidInteger, "id", "x6523", 1));
    let e = get_airports_csv(&AIRPORTS.replace("51.4706", "")).unwrap_err();
    assert_eq!((e.kind, e.column.as_str(), e.value.as_str(), e.row), (ErrorKind::InvalidDecimal, "latitude_deg", "", 2));
}

#[test]
fn an_unknown_continent_fails_the_load() {
    let e = get_countries_csv(&COUNTRIES.replace("\"SA\"", "\"sa\"")).unwrap_err();
    assert_eq!((e.kind, e.column.as_str(), e.value.as_str(), e.row), (ErrorKind::UnknownCode, "continent", "sa", 1));
}

#[test]
fn an_unknown_navaid_vocabulary_fails_the_load() {
    let e = get_navaids_csv(&NAVAIDS.replace("\"VOR-DME\"", "\"VOR_DME\"")).unwrap_err();
    assert_eq!((e.kind, e.column.as_str(), e.value.as_str(), e.row), (ErrorKind::UnknownCode, "type", "VOR_DME", 1));
    let e = get_navaids_csv(&NAVAIDS.replace("\"BOTH\"", "\"Both\"")).unwrap_err();
    assert_eq!((e.kind, e.column.as_str(), e.value.as_str(), e.row), (ErrorKind::UnknownCode, "usageType", "Both", 1));
    let e = get_navaids_csv(&NAVAIDS.replace("\"HIGH\"", "\"HUGE\"")).unwrap_err();
    assert_eq!((e.kind, e.column.as_str(), e.value.as_str(), e.row), (ErrorKind::UnknownCode, "power", "HUGE", 1));
}

#[test]
fn a_missing_column_fails_the_load_where_the_record_needs_it() {
    let e = get_countries_csv("id,code,name,continent,keywords\n1,AA,First,EU,\n").unwrap_err();
    assert_eq!((e.kind, e.column.as_str(), e.value.as_str(), e.row), (ErrorKind::MissingColumn, "wikipedia_link", "", 1));
    let e = get_countries_csv("id,code,name,continent,wikipedia_link\n1,AA,First,EU,\n").unwrap_err();
    assert_eq!((e.kind, e.column.as_str(), e.row), (ErrorKind::MissingColumn, "keywords", 1));
}

#[test]
fn a_missing_column_is_no_fault_where_the_field_may_be_absent() {
    let text = "id,filename,ident,name,type,frequency_khz,iso_country,dme_frequency_khz,dme_channel,associated_airport\n\
                1,f,I,N,DME,100,NZ,,,\n";
    let navaids = get_navaids_csv(text).unwrap();
    let navaid = navaids.get(&1).unwrap();
    assert!(navaid.latitude_deg().is_none());
    assert_eq!(None, navaid.elevation_ft());
    assert_eq!(None, navaid.usage_type());
    assert_eq!(None, navaid.power());
}

#[test]
fn a_column_named_twice_fails_the_load() {
    let e = get_countries_csv("id,code,name,continent,wikipedia_link,keywords,name\n1,AA,First,EU,,,Again\n").unwrap_err();
    assert_eq!((e.kind, e.column.as_str(), e.value.as_str(), e.row), (ErrorKind::DuplicateColumn, "name", "", 1));
    let twice_unknown = get_countries_csv("id,code,name,continent,wikipedia_link,keywords,x,x\n1,AA,First,EU,,,,\n");
    assert!(twice_unknown.is_ok());
}

#[test]
fn a_row_of_another_width_fails_the_load() {
    let e = get_countries_csv("id,code,name,continent,wikipedia_link,keywords\n1,AA,First,EU,,\n2,BB\n").unwrap_err();
    assert_eq!((e.kind, e.column.as_str(), e.value.as_str(), e.row), (ErrorKind::MalformedRow, "", "", 2));
    let e = get_countries_csv("id,code,name,continent,wikipedia_link,keywords\n1,AA,First,EU,,,extra\n").unwrap_err();
    assert_eq!((e.kind, e.row), (ErrorKind::MalformedRow, 1));
}

#[test]
fn the_first_fault_is_the_one_reported() {
    let text = "id,code,name,continent,wikipedia_link,keywords\n1,AA,First,EU,,\nx,BB,Second,??,,\n3,CC\n";
    let e = get_countries_csv(text).unwrap_err();
    assert_eq!((e.kind, e.column.as_str(), e.value.as_str(), e.row), (ErrorKind::InvalidInteger, "id", "x", 2));
}

#[test]
fn loading_twice_gives_the_same_table() {
    let first = get_airports_csv(AIRPORTS).unwrap();
    let second = get_airports_csv(AIRPORTS).unwrap();
    assert_eq!(first.len(), second.len());
    for (id, a) in &first {
        let b = second.get(id).unwrap();
        assert_eq!(a.id(), b.id());
        assert_eq!(a.ident(), b.ident());
        assert_eq!(a.airport_type(), b.airport_type());
        assert_eq!(a.name(), b.name());
        assert_eq!(a.latitude_deg(), b.latitude_deg());
        assert_eq!(a.longitude_deg(), b.longitude_deg());
        assert_eq!(a.elevation_ft(), b.elevation_ft());
        assert_eq!(a.continent(), b.continent());
        assert_eq!(a.iso_country(), b.iso_country());
        assert_eq!(a.iso_region(), b.iso_region());
        assert_eq!(a.municipality(), b.municipality());
        assert_eq!(a.scheduled_service(), b.scheduled_service());
        assert_eq!(a.gps_code(), b.gps_code());
        assert_eq!(a.iata_code(), b.iata_code());
        assert_eq!(a.local_code(), b.local_code());
        assert_eq!(a.home_link(), b.home_link());
        assert_eq!(a.wikipedia_link(), b.wikipedia_link());
        assert_eq!(a.keywords(), b.keywords());
    }
    let failed = AIRPORTS.replace("\"yes\"", "\"maybe\"");
    assert_eq!(get_airports_csv(&failed).unwrap_err(), get_airports_csv(&failed).unwrap_err());
}

#[test]
fn columns_are_found_by_name() {
    let header = csv::StringRecord::from(vec!["id", "name", "x", "name", ""]);
    assert_eq!(find_column(&header, "id"), Column::At(0));
    assert_eq!(find_column(&header, "x"), Column::At(2));
    assert_eq!(find_column(&header, ""), Column::At(4));
    assert_eq!(find_column(&header, "name"), Column::Duplicate);
    assert_eq!(find_column(&header, "ID"), Column::Missing);
    assert_eq!(find_column(&header, "code"), Column::Missing);
}

#[test]
fn tables_are_built_from_records() {
    let rows = vec![
        Ok(csv::StringRecord::from(vec!["id", "code", "name", "continent", "wikipedia_link", "keywords"])),
        Ok(csv::StringRecord::from(vec!["7", "AA", "First", "OC", "w", "k1,k2"])),
    ];
    let countries = load_records::<ourairports::countries::Country>(&rows).unwrap();
    let first = countries.get(&7).unwrap();
    assert_eq!("AA", first.code());
    assert_eq!(&Continent::Oceania, first.continent());
    assert_eq!(&vec!["k1".to_string(), "k2".to_string()], first.keywords());
    let none: Vec<Result<csv::StringRecord, csv::Error>> = vec![];
    assert!(load_records::<ourairports::countries::Country>(&none).unwrap().is_empty());
}

#[test]
fn a_record_that_the_reader_rejected_fails_the_load() {
    let mut reader = csv::ReaderBuilder::new().has_headers(false).from_reader("a,b\nc\n".as_bytes());
    let mut results: Vec<Result<csv::StringRecord, csv::Error>> = reader.records().collect();
    let rejected = results.pop().unwrap();
    assert!(rejected.is_err());
    let rows = vec![
        Ok(csv::StringRecord::from(vec!["id", "code", "name", "continent", "wikipedia_link", "keywords"])),
        Ok(csv::StringRecord::from(vec!["7", "AA", "First", "OC", "w", ""])),
        rejected,
        Ok(csv::StringRecord::from(vec!["8", "BB", "Second", "OC", "w", ""])),
    ];
    let e = load_records::<ourairports::countries::Country>(&rows).unwrap_err();
    assert_eq!((e.kind, e.column.as_str(), e.value.as_str(), e.row), (ErrorKind::MalformedRow, "", "", 2));
}

#[test]
fn airport_type_codes_round_trip() {
    for (t, code) in [
        (AirportType::SmallAirport, "small_airport"),
        (AirportType::MediumAirport, "medium_airport"),
        (AirportType::LargeAirport, "large_airport"),
        (AirportType::Heliport, "heliport"),
        (AirportType::SeaplaneBase, "seaplane_base"),
        (AirportType::ClosedAirport, "closed_airport"),
        (AirportType::BalloonPort, "balloon_port"),
    ] {
        assert_eq!(t.code(), code);
        assert_eq!(AirportType::from_code(code).unwrap(), t);
    }
    assert_eq!(AirportType::from_code("closed").unwrap(), AirportType::ClosedAirport);
    assert_eq!(AirportType::from_code("balloonport").unwrap(), AirportType::BalloonPort);
    assert!(AirportType::from_code("Heliport").is_err());
    assert!(AirportType::from_code("").is_err());
}

#[test]
fn navaid_vocabularies_round_trip() {
    for (t, code) in [
        (NavaidType::Dme, "DME"),
        (NavaidType::Ndb, "NDB"),
        (NavaidType::NdbDme, "NDB-DME"),
        (NavaidType::Tacan, "TACAN"),
        (NavaidType::Vor, "VOR"),
        (NavaidType::VorDme, "VOR-DME"),
        (NavaidType::Vortac, "VORTAC"),
    ] {
        assert_eq!(t.code(), code);
        assert_eq!(NavaidType::from_code(code).unwrap(), t);
    }
    for (u, code) in [
        (UsageType::Hi, "HI"),
        (UsageType::Lo, "LO"),
        (UsageType::Both, "BOTH"),
        (UsageType::Term, "TERM"),
        (UsageType::Rnav, "RNAV"),
    ] {
        assert_eq!(u.code(), code);
        assert_eq!(UsageType::from_code(code).unwrap(), u);
    }
    assert_eq!(UsageType::from_code("TERMINAL").unwrap(), UsageType::Term);
    for (p, code) in [
        (NavaidPower::Low, "LOW"),
        (NavaidPower::Medium, "MEDIUM"),
        (NavaidPower::High, "HIGH"),
        (NavaidPower::Unknown, "UNKNOWN"),
    ] {
        assert_eq!(p.code(), code);
        assert_eq!(NavaidPower::from_code(code).unwrap(), p);
    }
    assert!(NavaidType::from_code("vor").is_err());
    assert!(UsageType::from_code("hi").is_err());
    assert!(NavaidPower::from_code("").is_err());
}

fn hash_of<T: std::hash::Hash>(value: &T) -> u64 {
    let mut hasher = std::collections::hash_map::DefaultHasher::new();
    std::hash::Hash::hash(value, &mut hasher);
    std::hash::Hasher::finish(&hasher)
}

#[test]
fn records_hash_as_their_ids() {
    let first = get_countries_csv("id,code,name,continent,wikipedia_link,keywords\n1,AA,First,EU,,\n2,BB,Other,AS,,\n").unwrap();
    let second = get_countries_csv("id,code,name,continent,wikipedia_link,keywords\n1,CC,Second,AF,,x\n").unwrap();
    assert_eq!(hash_of(first.get(&1).unwrap()), hash_of(second.get(&1).unwrap()));
    assert_eq!(hash_of(first.get(&1).unwrap()), hash_of(&1u64));
    assert_ne!(hash_of(first.get(&1).unwrap()), hash_of(first.get(&2).unwrap()));
    let mut seen = std::collections::HashSet::new();
    assert!(seen.insert(first.get(&1).unwrap()));
    assert!(!seen.insert(second.get(&1).unwrap()));
    assert!(seen.insert(first.get(&2).unwrap()));
}
