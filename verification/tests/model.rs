use sptty::model::{
    AlbumRestriction, Copyright, EpisodeRestriction, ExplicitContentSettings, ExternalId,
    Followers, Image, LinkedTrack, Paging, StartResumeAUsersPlaybackRequest, TrackRestriction,
    TransferUserPlaybackRequest, ExternalUrl,
};

#[test]
fn default_playback_request_names_nothing() {
    let request = StartResumeAUsersPlaybackRequest::default();
    assert_eq!(request.context_uri, None);
    assert_eq!(request.uris, None);
    assert_eq!(request.offset, None);
    assert_eq!(request.position_ms, None);
}

#[test]
fn transfer_request_holds_its_fields() {
    let request = TransferUserPlaybackRequest { device_ids: vec!["a".to_string()], play: true };
    assert_eq!(request.device_ids.len(), 1);
    assert!(request.play);
}

#[test]
fn paging_holds_items_of_any_type() {
    let page: Paging<u8> = Paging {
        href: "h".to_string(),
        items: vec![1, 2, 3],
        limit: 3,
        next: None,
        offset: 0,
        previous: None,
        total: 10,
    };
    assert_eq!(page.items, vec![1, 2, 3]);
    assert_eq!(page.total, 10);
}

#[test]
fn small_records_hold_their_fields() {
    assert_eq!(AlbumRestriction { reason: "market".to_string() }.reason, "market");
    assert_eq!(TrackRestriction { reason: "explicit".to_string() }.reason, "explicit");
    assert_eq!(EpisodeRestriction { reason: "product".to_string() }.reason, "product");
    assert_eq!(Followers { href: None, total: 7 }.total, 7);
    assert_eq!(Copyright { text: "(c)".to_string(), kind: "C".to_string() }.kind, "C");
    assert_eq!(ExternalId { ean: None, isrc: Some("X".to_string()), upc: None }.isrc.unwrap(), "X");
    assert!(ExplicitContentSettings { filter_enabled: true, filter_locked: false }.filter_enabled);
    assert_eq!(format!("{:?}", Image {}), "Image");
    let linked = LinkedTrack {
        external_urls: ExternalUrl { spotify: "s".to_string() },
        href: "h".to_string(),
        id: "i".to_string(),
        kind: "track".to_string(),
        uri: "u".to_string(),
    };
    assert_eq!(linked.kind, "track");
}
