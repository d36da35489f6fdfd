//! Tests for the location record and its builder.

use mozlog::{FallbackProvider, Location};

#[test]
fn builder_works() {
    let location = Location::build()
        .country("US".to_string())
        .region("OR".to_string())
        .city("Portland".to_string())
        .dma(810)
        .provider("test".to_string())
        .finish()
        .unwrap();

    assert_eq!(
        location,
        Location {
            country: Some("US".to_string()),
            region: Some("OR".to_string()),
            city: Some("Portland".to_string()),
            dma: Some(810),
            provider: "test".to_string()
        }
    );
}

#[test]
fn methods_get_values() {
    let location = Location::build()
        .country("US".to_string())
        .region("CA".to_string())
        .city("Sunnyvale".to_string())
        .dma(807)
        .provider("test".to_string())
        .finish()
        .unwrap();

    assert_eq!(location.country(), "US");
    assert_eq!(location.region(), "CA");
    assert_eq!(location.city(), "Sunnyvale");
    assert_eq!(location.dma(), 807);
}

#[test]
fn methods_get_defaults() {
    let location = Location::build()
        .provider("test".to_string())
        .finish()
        .unwrap();

    assert_eq!(location.country(), "");
    assert_eq!(location.region(), "");
    assert_eq!(location.city(), "");
    assert_eq!(location.dma(), 0);
}

#[test]
fn finish_without_provider_fails() {
    assert!(Location::build().country("US".to_string()).finish().is_err());
}

#[test]
fn fallback_works_empty() {
    let provider = FallbackProvider::new(Location::build());
    let location = provider.fallback_location();
    assert_eq!(
        location,
        Location {
            country: None,
            region: None,
            city: None,
            dma: None,
            provider: "fallback".to_string()
        }
    )
}

#[test]
fn fallback_works_full() {
    let provider = FallbackProvider::new(
        Location::build()
            .country("CA".to_string())
            .region("BC".to_string())
            .city("Burnaby".to_string()),
    );
    let location = provider.fallback_location();
    assert_eq!(
        location,
        Location {
            country: Some("CA".to_string()),
            region: Some("BC".to_string()),
            city: Some("Burnaby".to_string()),
            dma: None,
            provider: "fallback".to_string()
        }
    )
}

#[test]
fn fallback_provider_name() {
    let provider = FallbackProvider::new(Location::build());
    assert_eq!(provider.name(), "fallback");
}
