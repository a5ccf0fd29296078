use ourairports::airport_frequencies::get_airport_frequencies_csv;
use ourairports::airports::get_airports_csv;
use ourairports::countries::get_countries_csv;
use ourairports::navaids::get_navaids_csv;
use ourairports::pages::airport_frequencies::{get_airport_frequencies, get_airport_frequencies_by_id};
use ourairports::pages::airports::{get_airports, get_airports_by_id};
use ourairports::pages::countries::{get_countries, get_countries_by_id};
use ourairports::pages::navaids::{get_navaids, get_navaids_by_id};
use ourairports::pages::regions::{get_regions, get_regions_by_id};
use ourairports::pages::runways::{get_runways, get_runways_by_id};
use ourairports::pages::{find, id_matches, text_matches, ErrorResponse};
use ourairports::regions::get_regions_csv;
use ourairports::runways::get_runways_csv;
use ourairports::text::eq_ignoring_case;

const AIRPORTS: &str = "\
id,ident,type,name,latitude_deg,longitude_deg,elevation_ft,continent,iso_country,iso_region,municipality,scheduled_service,gps_code,iata_code,local_code,home_link,wikipedia_link,keywords
30,EGLL,large_airport,Heathrow,51.4706,-0.461941,83,EU,GB,GB-ENG,London,yes,EGLL,LHR,,,,
10,EGKK,large_airport,Gatwick,51.148102,-0.190278,202,EU,GB,GB-ENG,London,yes,EGKK,LGW,,,,
20,KJFK,large_airport,Kennedy,40.639447,-73.779317,13,NA,US,US-NY,New York,yes,KJFK,JFK,JFK,,,
40,00A,heliport,Total RF,40.070985,-74.933689,11,NA,US,US-PA,Bensalem,no,K00A,,00A,,,
";

fn ids_of_airports(body: Vec<&ourairports::airports::Airport>) -> Vec<u64> {
    body.iter().map(|a| a.id()).collect()
}

#[test]
fn a_query_without_filters_lists_the_whole_table_in_order() {
    let airports = get_airports_csv(AIRPORTS).unwrap();
    let params = ourairports::pages::airports::QueryParams::default();
    assert_eq!(ids_of_airports(get_airports(&airports, &params)), vec![10, 20, 30, 40]);
}

#[test]
fn a_filter_selects_by_equality_ignoring_case() {
    let airports = get_airports_csv(AIRPORTS).unwrap();
    let mut params = ourairports::pages::airports::QueryParams::default();
    params.iso_country = Some("gb".to_string());
    assert_eq!(ids_of_airports(get_airports(&airports, &params)), vec![10, 30]);
    params.iso_country = Some("G".to_string());
    assert!(get_airports(&airports, &params).is_empty());
    params.iso_country = Some("".to_string());
    assert!(get_airports(&airports, &params).is_empty());
}

#[test]
fn several_filters_select_what_any_of_them_selects() {
    let airports = get_airports_csv(AIRPORTS).unwrap();
    let params = ourairports::pages::airports::QueryParams {
        ident: Some("kjfk".to_string()),
        iso_country: None,
        iso_region: Some("GB-eng".to_string()),
        gps_code: Some("K00A".to_string()),
        iata_code: Some("JFK".to_string()),
        local_code: Some("nothing".to_string()),
    };
    assert_eq!(ids_of_airports(get_airports(&airports, &params)), vec![10, 20, 30, 40]);
    let params = ourairports::pages::airports::QueryParams {
        ident: None,
        iso_country: None,
        iso_region: None,
        gps_code: None,
        iata_code: Some("jfk".to_string()),
        local_code: Some("JFK".to_string()),
    };
    assert_eq!(ids_of_airports(get_airports(&airports, &params)), vec![20]);
}

#[test]
fn an_empty_filter_selects_the_records_with_an_empty_field() {
    let airports = get_airports_csv(AIRPORTS).unwrap();
    let mut params = ourairports::pages::airports::QueryParams::default();
    params.local_code = Some(String::new());
    assert_eq!(ids_of_airports(get_airports(&airports, &params)), vec![10, 30]);
}

#[test]
fn airports_are_found_by_id() {
    let airports = get_airports_csv(AIRPORTS).unwrap();
    assert_eq!(get_airports_by_id(&airports, 30).unwrap().ident(), "EGLL");
    let e = get_airports_by_id(&airports, 31).unwrap_err();
    assert_eq!(e.error(), "No airport with the specified ID.");
    assert_eq!(find(&airports, 10).unwrap().ident(), "EGKK");
    assert!(find(&airports, 11).is_none());
}

#[test]
fn countries_are_listed_and_found() {
    let countries = get_countries_csv(
        "id,code,name,continent,wikipedia_link,keywords\n2,BR,Brazil,SA,,\n1,AD,Andorra,EU,,\n3,br,Other,SA,,\n",
    )
    .unwrap();
    let mut params = ourairports::pages::countries::QueryParams::default();
    let all: Vec<u64> = get_countries(&countries, &params).iter().map(|c| c.id()).collect();
    assert_eq!(all, vec![1, 2, 3]);
    params.code = Some("Br".to_string());
    let some: Vec<u64> = get_countries(&countries, &params).iter().map(|c| c.id()).collect();
    assert_eq!(some, vec![2, 3]);
    params.name = Some("ANDORRA".to_string());
    let more: Vec<u64> = get_countries(&countries, &params).iter().map(|c| c.id()).collect();
    assert_eq!(more, vec![1, 2, 3]);
    assert_eq!(get_countries_by_id(&countries, 1).unwrap().name(), "Andorra");
    assert_eq!(get_countries_by_id(&countries, 9).unwrap_err().error(), "No country with the specified ID.");
}

#[test]
fn regions_are_listed_and_found() {
    let regions = get_regions_csv(
        "id,code,local_code,name,continent,iso_country,wikipedia_link,keywords\n5,GE-KA,KA,Kakheti,AS,GE,,\n4,AD-02,02,Canillo,EU,AD,,\n",
    )
    .unwrap();
    let mut params = ourairports::pages::regions::QueryParams::default();
    assert_eq!(get_regions(&regions, &params).len(), 2);
    params.local_code = Some("ka".to_string());
    let some: Vec<u64> = get_regions(&regions, &params).iter().map(|r| r.id()).collect();
    assert_eq!(some, vec![5]);
    params.local_code = None;
    params.code = Some("ad-02".to_string());
    params.iso_country = Some("ge".to_string());
    let both: Vec<u64> = get_regions(&regions, &params).iter().map(|r| r.id()).collect();
    assert_eq!(both, vec![4, 5]);
    assert_eq!(get_regions_by_id(&regions, 4).unwrap().name(), "Canillo");
    assert_eq!(get_regions_by_id(&regions, 0).unwrap_err().error(), "No region with the specified ID.");
}

#[test]
fn frequencies_are_listed_and_found() {
    let frequencies = get_airport_frequencies_csv(
        "id,airport_ref,airport_ident,type,description,frequency_mhz\n3,30,EGLL,TWR,Tower,118.5\n1,10,EGKK,TWR,Tower,124.225\n2,30,EGLL,ATIS,ATIS,128.075\n",
    )
    .unwrap();
    let mut params = ourairports::pages::airport_frequencies::QueryParams::default();
    assert_eq!(get_airport_frequencies(&frequencies, &params).len(), 3);
    params.airport_ref = Some(30);
    let some: Vec<u64> = get_airport_frequencies(&frequencies, &params).iter().map(|f| f.id()).collect();
    assert_eq!(some, vec![2, 3]);
    params.airport_ident = Some("egkk".to_string());
    let all: Vec<u64> = get_airport_frequencies(&frequencies, &params).iter().map(|f| f.id()).collect();
    assert_eq!(all, vec![1, 2, 3]);
    params.airport_ref = Some(99);
    params.airport_ident = None;
    assert!(get_airport_frequencies(&frequencies, &params).is_empty());
    assert_eq!(get_airport_frequencies_by_id(&frequencies, 2).unwrap().frequency_type(), "ATIS");
    assert_eq!(
        get_airport_frequencies_by_id(&frequencies, 4).unwrap_err().error(),
        "No airport with the specified ID."
    );
}

#[test]
fn runways_are_listed_and_found() {
    let runways = get_runways_csv(
        "id,airport_ref,airport_ident,length_ft,width_ft,surface,lighted,closed,le_ident,le_latitude_deg,le_longitude_deg,le_elevation_ft,le_heading_degT,le_displaced_threshold_ft,he_ident,he_latitude_deg,he_longitude_deg,he_elevation_ft,he_heading_degT,he_displaced_threshold_ft\n\
         2,30,EGLL,12802,164,ASP,1,0,09L,,,,,,27R,,,,,\n\
         1,10,EGKK,10879,148,ASP,1,0,08R,,,,,,26L,,,,,\n",
    )
    .unwrap();
    let mut params = ourairports::pages::runways::QueryParams::default();
    assert_eq!(get_runways(&runways, &params).len(), 2);
    params.airport_ident = Some("EGll".to_string());
    let some: Vec<u64> = get_runways(&runways, &params).iter().map(|r| r.id()).collect();
    assert_eq!(some, vec![2]);
    params.airport_ref = Some(10);
    let all: Vec<u64> = get_runways(&runways, &params).iter().map(|r| r.id()).collect();
    assert_eq!(all, vec![1, 2]);
    assert_eq!(get_runways_by_id(&runways, 1).unwrap().le_ident(), "08R");
    assert_eq!(get_runways_by_id(&runways, 3).unwrap_err().error(), "No runway with the specified ID.");
}

#[test]
fn navaids_are_listed_and_found() {
    let navaids = get_navaids_csv(
        "id,filename,ident,name,type,frequency_khz,latitude_deg,longitude_deg,elevation_ft,iso_country,dme_frequency_khz,dme_channel,dme_latitude_deg,dme_longitude_deg,dme_elevation_ft,slaved_variation_deg,magnetic_variation_deg,usageType,power,associated_airport\n\
         2,Christchurch_VOR-DME_NZ,CH,Christchurch,VOR-DME,115300,-43.5,172.5,125,NZ,115300,100X,,,,23,24.4,BOTH,HIGH,NZCH\n\
         1,Abakan_NDB_RU,AK,Abakan,NDB,1020,53.7,91.4,,RU,,,,,,,,,,\n",
    )
    .unwrap();
    let mut params = ourairports::pages::navaids::QueryParams::default();
    assert_eq!(get_navaids(&navaids, &params).len(), 2);
    params.filename = Some("abakan_ndb_ru".to_string());
    let some: Vec<u64> = get_navaids(&navaids, &params).iter().map(|n| n.id()).collect();
    assert_eq!(some, vec![1]);
    params.associated_airport = Some("nzch".to_string());
    let all: Vec<u64> = get_navaids(&navaids, &params).iter().map(|n| n.id()).collect();
    assert_eq!(all, vec![1, 2]);
    params = ourairports::pages::navaids::QueryParams::default();
    params.ident = Some("ch".to_string());
    params.iso_country = Some("nz".to_string());
    let one: Vec<u64> = get_navaids(&navaids, &params).iter().map(|n| n.id()).collect();
    assert_eq!(one, vec![2]);
    assert_eq!(get_navaids_by_id(&navaids, 2).unwrap().ident(), "CH");
    assert_eq!(get_navaids_by_id(&navaids, 5).unwrap_err().error(), "No navaid with the specified ID.");
}

#[test]
fn filters_compare_as_lower_cased_ascii() {
    let cases = [
        ("", ""),
        ("a", "A"),
        ("EGLL", "egll"),
        ("egl", "egll"),
        ("Zürich", "ZÜRICH"),
        ("Zürich", "zürich"),
        ("K", "\u{212a}"),
        ("straße", "STRASSE"),
        ("[", "{"),
        ("@", "`"),
    ];
    for (a, b) in cases {
        let expected = a.to_ascii_lowercase() == b.to_ascii_lowercase();
        assert_eq!(eq_ignoring_case(a, b), expected, "{:?} {:?}", a, b);
        assert_eq!(text_matches(&Some(a.to_string()), b), expected);
    }
    assert!(!text_matches(&None, ""));
    assert!(id_matches(&Some(5), 5));
    assert!(!id_matches(&Some(5), 6));
    assert!(!id_matches(&None, 0));
}

#[test]
fn an_error_response_carries_its_message() {
    let e = ErrorResponse::new("No airport with the specified ID.");
    assert_eq!(e.error(), "No airport with the specified ID.");
    assert_eq!(e, ErrorResponse::new("No airport with the specified ID."));
}
