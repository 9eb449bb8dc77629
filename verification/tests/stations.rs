use get_nhk_radio_url::text::same_text;
use get_nhk_radio_url::{RadioChannel, RadioLocation};

#[test]
fn each_channel_has_its_key() {
    assert_eq!(RadioChannel::NhkR1.as_str(), "r1hls");
    assert_eq!(RadioChannel::NhkR2.as_str(), "r2hls");
    assert_eq!(RadioChannel::NhkFm.as_str(), "fmhls");
}

#[test]
fn each_region_has_its_key() {
    assert_eq!(RadioLocation::Sapporo.as_str(), "sapporo");
    assert_eq!(RadioLocation::Sendai.as_str(), "sendai");
    assert_eq!(RadioLocation::Tokyo.as_str(), "tokyo");
    assert_eq!(RadioLocation::Nagoya.as_str(), "nagoya");
    assert_eq!(RadioLocation::Osaka.as_str(), "osaka");
    assert_eq!(RadioLocation::Hiroshima.as_str(), "hiroshima");
    assert_eq!(RadioLocation::Matsuyama.as_str(), "matsuyama");
    assert_eq!(RadioLocation::Fukuoka.as_str(), "fukuoka");
}

#[test]
fn the_same_text_is_told_from_another() {
    assert!(same_text("", ""));
    assert!(same_text("area", "area"));
    assert!(same_text("東京", "東京"));
    assert!(!same_text("area", "areajp"));
    assert!(!same_text("areajp", "area"));
    assert!(!same_text("area", "arez"));
    assert!(!same_text("area", "Area"));
    assert!(!same_text("", "a"));
    assert!(!same_text("東京", "東亰"));
}

#[test]
fn no_two_stations_share_a_key() {
    let regions = [
        RadioLocation::Sapporo,
        RadioLocation::Sendai,
        RadioLocation::Tokyo,
        RadioLocation::Nagoya,
        RadioLocation::Osaka,
        RadioLocation::Hiroshima,
        RadioLocation::Matsuyama,
        RadioLocation::Fukuoka,
    ];
    for (i, one) in regions.iter().enumerate() {
        for (j, other) in regions.iter().enumerate() {
            assert_eq!(i == j, one.as_str() == other.as_str());
            assert_eq!(i == j, one == other);
        }
    }
    let channels = [RadioChannel::NhkR1, RadioChannel::NhkFm, RadioChannel::NhkR2];
    for (i, one) in channels.iter().enumerate() {
        for (j, other) in channels.iter().enumerate() {
            assert_eq!(i == j, one.as_str() == other.as_str());
        }
    }
}
