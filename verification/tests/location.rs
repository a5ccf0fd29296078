use ourairports::airports::get_airports_csv;
use ourairports::location::{ContainsLocation, Location};
use ourairports::navaids::get_navaids_csv;
use ourairports::runways::get_runways_csv;

const AIRPORTS: &str = "\
id,ident,type,name,latitude_deg,longitude_deg,elevation_ft,continent,iso_country,iso_region,municipality,scheduled_service,gps_code,iata_code,local_code,home_link,wikipedia_link,keywords
2434,EGLL,large_airport,Heathrow,51.4706,-0.461941,83,EU,GB,GB-ENG,London,yes,EGLL,LHR,,,,
35145,LLMZ,closed,Bar Yehuda,31.328169,35.388608,-1266,AS,IL,IL-D,Masada,no,LLMZ,MTZ,,,,
";

const RUNWAYS: &str = "\
id,airport_ref,airport_ident,length_ft,width_ft,surface,lighted,closed,le_ident,le_latitude_deg,le_longitude_deg,le_elevation_ft,le_heading_degT,le_displaced_threshold_ft,he_ident,he_latitude_deg,he_longitude_deg,he_elevation_ft,he_heading_degT,he_displaced_threshold_ft
234512,1941,CYVR,9940,200,CON,1,0,08L,49.2051,-123.201,14,99.9,,26R,49.2004,-123.16,9,279.9,150
";

#[test]
fn the_location_of_an_airport_is_a_projection() {
    let airports = get_airports_csv(AIRPORTS).unwrap();
    let heathrow = airports.get(&2434).unwrap();
    let location = heathrow.extract_location();
    assert_eq!(location.latitude_deg(), Some(heathrow.latitude_deg()));
    assert_eq!(location.latitude_deg().unwrap().as_str(), "51.4706");
    assert_eq!(location.longitude_deg().unwrap().as_str(), "-0.461941");
    assert_eq!(location.elevation_ft(), Some(83));
    let from = Location::from(heathrow.clone());
    assert_eq!(location.latitude_deg(), from.latitude_deg());
    assert_eq!(location.longitude_deg(), from.longitude_deg());
    assert_eq!(location.elevation_ft(), from.elevation_ft());
}

#[test]
fn an_elevation_below_sea_level_is_kept() {
    let airports = get_airports_csv(AIRPORTS).unwrap();
    let location = airports.get(&35145).unwrap().extract_location();
    assert_eq!(location.elevation_ft(), Some(-1266));
}

#[test]
fn the_ends_of_a_runway_are_records_of_their_own() {
    let runways = get_runways_csv(RUNWAYS).unwrap();
    let runway = runways.get(&234512).unwrap();
    let low = runway.extract_le_info();
    assert_eq!(low.ident(), "08L");
    assert_eq!(low.airport_ref(), 1941);
    assert_eq!(low.airport_ident(), "CYVR");
    assert_eq!(low.latitude_deg().unwrap().as_str(), "49.2051");
    assert_eq!(low.longitude_deg().unwrap().as_str(), "-123.201");
    assert_eq!(low.elevation_ft(), Some(14));
    assert_eq!(low.heading_deg_true().unwrap().as_str(), "99.9");
    assert_eq!(low.displaced_threshold_ft(), None);
    let high = runway.extract_he_info();
    assert_eq!(high.ident(), "26R");
    assert_eq!(high.airport_ref(), 1941);
    assert_eq!(high.airport_ident(), "CYVR");
    assert_eq!(high.latitude_deg().unwrap().as_str(), "49.2004");
    assert_eq!(high.longitude_deg().unwrap().as_str(), "-123.16");
    assert_eq!(high.elevation_ft(), Some(9));
    assert_eq!(high.heading_deg_true().unwrap().as_str(), "279.9");
    assert_eq!(high.displaced_threshold_ft(), Some(150));
    let location = high.extract_location();
    assert_eq!(location.latitude_deg().unwrap().as_str(), "49.2004");
    assert_eq!(location.longitude_deg().unwrap().as_str(), "-123.16");
    assert_eq!(location.elevation_ft(), Some(9));
}

#[test]
fn a_navaid_without_coordinates_has_an_empty_location() {
    let navaids = get_navaids_csv(
        "id,filename,ident,name,type,frequency_khz,latitude_deg,longitude_deg,elevation_ft,iso_country,dme_frequency_khz,dme_channel,dme_latitude_deg,dme_longitude_deg,dme_elevation_ft,slaved_variation_deg,magnetic_variation_deg,usageType,power,associated_airport\n\
         1,f,I,N,TACAN,100,,,,NZ,,,,,,,,,,\n\
         2,g,J,M,VORTAC,100,-43.5,172.5,125,NZ,,,,,,,,,,\n",
    )
    .unwrap();
    let nowhere = navaids.get(&1).unwrap().extract_location();
    assert!(nowhere.latitude_deg().is_none());
    assert!(nowhere.longitude_deg().is_none());
    assert_eq!(nowhere.elevation_ft(), None);
    let somewhere = navaids.get(&2).unwrap().extract_location();
    assert_eq!(somewhere.latitude_deg().unwrap().as_str(), "-43.5");
    assert_eq!(somewhere.longitude_deg().unwrap().as_str(), "172.5");
    assert_eq!(somewhere.elevation_ft(), Some(125));
}
