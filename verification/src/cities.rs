//! The fixed directory of cities for the random-city command: a read-only
//! table of (name, country, flag) triples and a uniformly random pick
//! from it. The draw itself is the one unverified step; everything
//! returned is guaranteed to be an entry of the table.

use vstd::prelude::*;
use rand::RngExt;

verus! {

/// The city directory as a mathematical sequence of
/// (name, country, flag) triples.
pub open spec fn city_table() -> Seq<(Seq<char>, Seq<char>, Seq<char>)> {
    seq![
        ("New York"@, "USA"@, "🇺🇸"@),
        ("Los Angeles"@, "USA"@, "🇺🇸"@),
        ("Miami"@, "USA"@, "🇺🇸"@),
        ("Honolulu"@, "USA"@, "🇺🇸"@),
        ("Vancouver"@, "Canada"@, "🇨🇦"@),
        ("Toronto"@, "Canada"@, "🇨🇦"@),
        ("Mexico City"@, "Mexico"@, "🇲🇽"@),
        ("Monterrey"@, "Mexico"@, "🇲🇽"@),
        ("London"@, "UK"@, "🇬🇧"@),
        ("Manchester"@, "UK"@, "🇬🇧"@),
        ("Munich"@, "Germany"@, "🇩🇪"@),
        ("Berlin"@, "Germany"@, "🇩🇪"@),
        ("Madrid"@, "Spain"@, "🇪🇸"@),
        ("Barcelona"@, "Spain"@, "🇪🇸"@),
        ("Milan"@, "Italy"@, "🇮🇹"@),
        ("Rome"@, "Italy"@, "🇮🇹"@),
        ("Paris"@, "France"@, "🇫🇷"@),
        ("Marseille"@, "France"@, "🇫🇷"@),
        ("Glasgow"@, "UK"@, "🇬🇧"@),
        ("Copenhagen"@, "Denmark"@, "🇩🇰"@),
        ("Oslo"@, "Norway"@, "🇳🇴"@),
        ("Stockholm"@, "Sweden"@, "🇸🇪"@),
        ("Helsinki"@, "Finland"@, "🇫🇮"@),
        ("Moscow"@, "Russia"@, "🇷🇺"@),
        ("Kyiv"@, "Ukraine"@, "🇺🇦"@),
        ("Warsaw"@, "Poland"@, "🇵🇱"@),
        ("Prague"@, "Czechia"@, "🇨🇿"@),
        ("Amsterdam"@, "Netherlands"@, "🇳🇱"@),
        ("Brussels"@, "Belgium"@, "🇧🇪"@),
        ("Bern"@, "Switzerland"@, "🇨🇭"@),
        ("Vienna"@, "Austria"@, "🇦🇹"@),
        ("Budapest"@, "Hungary"@, "🇭🇺"@),
        ("Zagreb"@, "Croatia"@, "🇭🇷"@),
        ("Bucharest"@, "Romania"@, "🇷🇴"@),
        ("Athens"@, "Greece"@, "🇬🇷"@),
        ("Lisbon"@, "Portugal"@, "🇵🇹"@),
        ("Istanbul"@, "Turkey"@, "🇹🇷"@),
        ("Casablanca"@, "Morocco"@, "🇲🇦"@),
        ("Baku"@, "Azerbaijan"@, "🇦🇿"@),
        ("Cairo"@, "Egypt"@, "🇪🇬"@),
        ("Riyadh"@, "Saudi Arabia"@, "🇸🇦"@),
        ("Doha"@, "Qatar"@, "🇶🇦"@),
        ("Dubai"@, "UAE"@, "🇦🇪"@),
        ("Muscat"@, "Oman"@, "🇴🇲"@),
        ("Tehran"@, "Iran"@, "🇮🇷"@),
        ("Lagos"@, "Nigeria"@, "🇳🇬"@),
        ("Dakar"@, "Senegal"@, "🇸🇳"@),
        ("Cape Town"@, "South Africa"@, "🇿🇦"@),
        ("Mumbai"@, "India"@, "🇮🇳"@),
        ("Dhaka"@, "Bangladesh"@, "🇧🇩"@),
        ("Bangkok"@, "Thailand"@, "🇹🇭"@),
        ("Kuala Lumpur"@, "Malaysia"@, "🇲🇾"@),
        ("Tokyo"@, "Japan"@, "🇯🇵"@),
        ("Seoul"@, "South Korea"@, "🇰🇷"@),
        ("Beijing"@, "China"@, "🇨🇳"@),
        ("Shanghai"@, "China"@, "🇨🇳"@),
        ("Sydney"@, "Australia"@, "🇦🇺"@),
        ("Perth"@, "Australia"@, "🇦🇺"@),
        ("Melbourne"@, "Australia"@, "🇦🇺"@),
        ("Auckland"@, "New Zealand"@, "🇳🇿"@),
        ("Reykjavík"@, "Iceland"@, "🇮🇸"@),
        ("Nairobi"@, "Kenya"@, "🇰🇪"@),
        ("Harare"@, "Zimbabwe"@, "🇿🇼"@),
        ("Luanda"@, "Angola"@, "🇦🇴"@),
        ("Libreville"@, "Gabon"@, "🇬🇦"@),
        ("Lusaka"@, "Zambia"@, "🇿🇲"@),
        ("Freetown"@, "Sierra Leone"@, "🇸🇱"@),
        ("Algiers"@, "Algeria"@, "🇩🇿"@),
        ("Rio de Janeiro"@, "Brazil"@, "🇧🇷"@),
        ("Buenos Aires"@, "Argentina"@, "🇦🇷"@),
        ("Montevideo"@, "Uruguay"@, "🇺🇾"@),
        ("Santiago"@, "Chile"@, "🇨🇱"@),
        ("Lima"@, "Peru"@, "🇵🇪"@),
        ("La Paz"@, "Bolivia"@, "🇧🇴"@),
        ("Medellín"@, "Colombia"@, "🇨🇴"@),
        ("Panama City"@, "Panama"@, "🇵🇦"@),
        ("San Jose"@, "Costa Rica"@, "🇨🇷"@),
        ("San Salvador"@, "El Salvador"@, "🇸🇻"@),
        ("Havana"@, "Cuba"@, "🇨🇺"@),
        ("Guatemala City"@, "Guatemala"@, "🇬🇹"@),
        ("Tegucigalpa"@, "Honduras"@, "🇭🇳"@),
        ("Managua"@, "Nicaragua"@, "🇳🇮"@),
        ("Kingston"@, "Jamaica"@, "🇯🇲"@),
        ("Santo Domingo"@, "Dominican Replublic"@, "🇩🇴"@),
        ("Bridgetown"@, "Barbados"@, "🇧🇧"@),
        ("Suva"@, "Fiji"@, "🇫🇯"@),
        ("Port Moresby"@, "Papua New Guinea"@, "🇵🇬"@),
        ("Ulaanbaatar"@, "Mongolia"@, "🇲🇳"@),
    ]
}

/// The directory as an in-memory vector, entry for entry the table above.
pub fn cities() -> (v: Vec<(&'static str, &'static str, &'static str)>)
    ensures
        v@.len() == city_table().len(),
        forall|i: int|
            0 <= i < v@.len() ==> (#[trigger] v@[i].0@, v@[i].1@, v@[i].2@) == city_table()[i],
{
    let mut v: Vec<(&'static str, &'static str, &'static str)> = Vec::new();
    v.push(("New York", "USA", "🇺🇸"));
    v.push(("Los Angeles", "USA", "🇺🇸"));
    v.push(("Miami", "USA", "🇺🇸"));
    v.push(("Honolulu", "USA", "🇺🇸"));
    v.push(("Vancouver", "Canada", "🇨🇦"));
    v.push(("Toronto", "Canada", "🇨🇦"));
    v.push(("Mexico City", "Mexico", "🇲🇽"));
    v.push(("Monterrey", "Mexico", "🇲🇽"));
    v.push(("London", "UK", "🇬🇧"));
    v.push(("Manchester", "UK", "🇬🇧"));
    v.push(("Munich", "Germany", "🇩🇪"));
    v.push(("Berlin", "Germany", "🇩🇪"));
    v.push(("Madrid", "Spain", "🇪🇸"));
    v.push(("Barcelona", "Spain", "🇪🇸"));
    v.push(("Milan", "Italy", "🇮🇹"));
    v.push(("Rome", "Italy", "🇮🇹"));
    v.push(("Paris", "France", "🇫🇷"));
    v.push(("Marseille", "France", "🇫🇷"));
    v.push(("Glasgow", "UK", "🇬🇧"));
    v.push(("Copenhagen", "Denmark", "🇩🇰"));
    v.push(("Oslo", "Norway", "🇳🇴"));
    v.push(("Stockholm", "Sweden", "🇸🇪"));
    v.push(("Helsinki", "Finland", "🇫🇮"));
    v.push(("Moscow", "Russia", "🇷🇺"));
    v.push(("Kyiv", "Ukraine", "🇺🇦"));
    v.push(("Warsaw", "Poland", "🇵🇱"));
    v.push(("Prague", "Czechia", "🇨🇿"));
    v.push(("Amsterdam", "Netherlands", "🇳🇱"));
    v.push(("Brussels", "Belgium", "🇧🇪"));
    v.push(("Bern", "Switzerland", "🇨🇭"));
    v.push(("Vienna", "Austria", "🇦🇹"));
    v.push(("Budapest", "Hungary", "🇭🇺"));
    v.push(("Zagreb", "Croatia", "🇭🇷"));
    v.push(("Bucharest", "Romania", "🇷🇴"));
    v.push(("Athens", "Greece", "🇬🇷"));
    v.push(("Lisbon", "Portugal", "🇵🇹"));
    v.push(("Istanbul", "Turkey", "🇹🇷"));
    v.push(("Casablanca", "Morocco", "🇲🇦"));
    v.push(("Baku", "Azerbaijan", "🇦🇿"));
    v.push(("Cairo", "Egypt", "🇪🇬"));
    v.push(("Riyadh", "Saudi Arabia", "🇸🇦"));
    v.push(("Doha", "Qatar", "🇶🇦"));
    v.push(("Dubai", "UAE", "🇦🇪"));
    v.push(("Muscat", "Oman", "🇴🇲"));
    v.push(("Tehran", "Iran", "🇮🇷"));
    v.push(("Lagos", "Nigeria", "🇳🇬"));
    v.push(("Dakar", "Senegal", "🇸🇳"));
    v.push(("Cape Town", "South Africa", "🇿🇦"));
    v.push(("Mumbai", "India", "🇮🇳"));
    v.push(("Dhaka", "Bangladesh", "🇧🇩"));
    v.push(("Bangkok", "Thailand", "🇹🇭"));
    v.push(("Kuala Lumpur", "Malaysia", "🇲🇾"));
    v.push(("Tokyo", "Japan", "🇯🇵"));
    v.push(("Seoul", "South Korea", "🇰🇷"));
    v.push(("Beijing", "China", "🇨🇳"));
    v.push(("Shanghai", "China", "🇨🇳"));
    v.push(("Sydney", "Australia", "🇦🇺"));
    v.push(("Perth", "Australia", "🇦🇺"));
    v.push(("Melbourne", "Australia", "🇦🇺"));
    v.push(("Auckland", "New Zealand", "🇳🇿"));
    v.push(("Reykjavík", "Iceland", "🇮🇸"));
    v.push(("Nairobi", "Kenya", "🇰🇪"));
    v.push(("Harare", "Zimbabwe", "🇿🇼"));
    v.push(("Luanda", "Angola", "🇦🇴"));
    v.push(("Libreville", "Gabon", "🇬🇦"));
    v.push(("Lusaka", "Zambia", "🇿🇲"));
    v.push(("Freetown", "Sierra Leone", "🇸🇱"));
    v.push(("Algiers", "Algeria", "🇩🇿"));
    v.push(("Rio de Janeiro", "Brazil", "🇧🇷"));
    v.push(("Buenos Aires", "Argentina", "🇦🇷"));
    v.push(("Montevideo", "Uruguay", "🇺🇾"));
    v.push(("Santiago", "Chile", "🇨🇱"));
    v.push(("Lima", "Peru", "🇵🇪"));
    v.push(("La Paz", "Bolivia", "🇧🇴"));
    v.push(("Medellín", "Colombia", "🇨🇴"));
    v.push(("Panama City", "Panama", "🇵🇦"));
    v.push(("San Jose", "Costa Rica", "🇨🇷"));
    v.push(("San Salvador", "El Salvador", "🇸🇻"));
    v.push(("Havana", "Cuba", "🇨🇺"));
    v.push(("Guatemala City", "Guatemala", "🇬🇹"));
    v.push(("Tegucigalpa", "Honduras", "🇭🇳"));
    v.push(("Managua", "Nicaragua", "🇳🇮"));
    v.push(("Kingston", "Jamaica", "🇯🇲"));
    v.push(("Santo Domingo", "Dominican Replublic", "🇩🇴"));
    v.push(("Bridgetown", "Barbados", "🇧🇧"));
    v.push(("Suva", "Fiji", "🇫🇯"));
    v.push(("Port Moresby", "Papua New Guinea", "🇵🇬"));
    v.push(("Ulaanbaatar", "Mongolia", "🇲🇳"));
    proof {
        assert(forall|i: int|
            0 <= i < v@.len() ==> (#[trigger] v@[i].0@, v@[i].1@, v@[i].2@) == city_table()[i]);
    }
    v
}

/// Relies on `rand::RngExt::random_range` on `0..n`: a draw from that
/// range, which is nonempty since `n > 0`.
#[verifier::external_body]
fn random_below(n: usize) -> (r: usize)
    requires
        n > 0,
    ensures
        r < n,
{
    rand::rng().random_range(0..n)
}

/// A uniformly random entry of the city directory. Whatever the draw,
/// the returned triple is one of the table's entries.
pub fn get_random_city() -> (r: (&'static str, &'static str, &'static str))
    ensures
        exists|i: int|
            0 <= i < city_table().len() && (r.0@, r.1@, r.2@) == #[trigger] city_table()[i],
{
    let v = cities();
    let idx = random_below(v.len());
    let r = v[idx];
    proof {
        assert((r.0@, r.1@, r.2@) == city_table()[idx as int]);
    }
    r
}

} // verus!
