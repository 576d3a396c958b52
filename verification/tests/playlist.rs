use muuuxy::config::State;
use muuuxy::playlist::{rewrite_body, Rewrite};

fn state() -> State {
    State::new(
        String::from("https"),
        String::from("0.0.0.0"),
        String::from("3000"),
        String::from("proxy.example"),
        None,
        String::from("SECRET"),
    )
}

const MASTER: &[u8] = b"#EXTM3U\n#EXT-X-STREAM-INF:BANDWIDTH=800000\nvariant_480p.m3u8\n#EXT-X-STREAM-INF:BANDWIDTH=1400000\nvariant_720p.m3u8\n";

const MEDIA: &[u8] = b"#EXTM3U\n#EXT-X-TARGETDURATION:10\n#EXTINF:9.5,\nseg1.ts\n#EXTINF:9.5,\nhttps://cdn.example/seg2.ts\n#EXT-X-ENDLIST\n";

#[test]
fn body_that_is_no_playlist_is_binary() {
    let target = "https://good.example/stream/index.m3u8";
    assert!(matches!(rewrite_body(b"\x00\x01\x02G@\x11", &state(), "SECRET", target), Rewrite::Binary));
    assert!(matches!(rewrite_body(b"", &state(), "SECRET", target), Rewrite::Binary));
    assert!(matches!(rewrite_body(b"hello world", &state(), "SECRET", target), Rewrite::Binary));
}

#[test]
fn master_playlist_keeps_its_variants_in_order() {
    let target = "https://good.example/stream/index.m3u8";
    match rewrite_body(MASTER, &state(), "SECRET", target) {
        Rewrite::Playlist { master, uris, text } => {
            assert!(master);
            assert_eq!(
                uris,
                vec![
                    String::from("https://proxy.example/proxy?key=SECRET&url=https%3A%2F%2Fgood%2Eexample%2Fstream%2Fvariant%5F480p%2Em3u8"),
                    String::from("https://proxy.example/proxy?key=SECRET&url=https%3A%2F%2Fgood%2Eexample%2Fstream%2Fvariant%5F720p%2Em3u8"),
                ]
            );
            let expected = format!(
                "#EXTM3U\n#EXT-X-STREAM-INF:BANDWIDTH=800000\n{}\n#EXT-X-STREAM-INF:BANDWIDTH=1400000\n{}\n",
                uris[0], uris[1]
            );
            assert_eq!(text, expected.into_bytes());
        }
        _ => panic!("a master playlist was expected"),
    }
}

#[test]
fn media_playlist_keeps_its_segments_in_order() {
    let target = "https://ex.com/a/b/media.m3u8";
    match rewrite_body(MEDIA, &state(), "SECRET", target) {
        Rewrite::Playlist { master, uris, text } => {
            assert!(!master);
            assert_eq!(
                uris,
                vec![
                    String::from("https://proxy.example/proxy?key=SECRET&url=https%3A%2F%2Fex%2Ecom%2Fa%2Fb%2Fseg1%2Ets"),
                    String::from("https://proxy.example/proxy?key=SECRET&url=https%3A%2F%2Fcdn%2Eexample%2Fseg2%2Ets"),
                ]
            );
            let expected = format!(
                "#EXTM3U\n#EXT-X-TARGETDURATION:10\n#EXTINF:9.5,\n{}\n#EXTINF:9.5,\n{}\n#EXT-X-ENDLIST\n",
                uris[0], uris[1]
            );
            assert_eq!(text, expected.into_bytes());
        }
        _ => panic!("a media playlist was expected"),
    }
}

#[test]
fn rewritten_playlist_parses_to_the_rewritten_uris() {
    let target = "https://good.example/stream/index.m3u8";
    match rewrite_body(MASTER, &state(), "SECRET", target) {
        Rewrite::Playlist { uris, text, .. } => {
            let (_, parsed) = m3u8_rs::parse_playlist(&text).unwrap();
            match parsed {
                m3u8_rs::Playlist::MasterPlaylist(master) => {
                    assert_eq!(master.variants.len(), 2);
                    assert_eq!(master.variants[0].uri, uris[0]);
                    assert_eq!(master.variants[1].uri, uris[1]);
                    assert_eq!(master.variants[0].bandwidth, 800000);
                    assert_eq!(master.variants[1].bandwidth, 1400000);
                }
                _ => panic!("a master playlist was expected"),
            }
        }
        _ => panic!("a playlist was expected"),
    }
}

#[test]
fn playlist_without_entries_is_written_as_it_is() {
    let body = b"#EXTM3U\n#EXT-X-TARGETDURATION:10\n#EXT-X-ENDLIST\n";
    match rewrite_body(body, &state(), "SECRET", "https://ex.com/a.m3u8") {
        Rewrite::Playlist { master, uris, text } => {
            assert!(!master);
            assert!(uris.is_empty());
            assert_eq!(text, body.to_vec());
        }
        _ => panic!("a media playlist was expected"),
    }
}

#[test]
fn entry_that_does_not_join_is_rewritten_among_good_ones() {
    let body = b"#EXTM3U\n#EXT-X-TARGETDURATION:10\n#EXTINF:9.5,\nseg1.ts\n#EXTINF:9.5,\nhttp://\n#EXTINF:9.5,\nhttp://h:99999/a.ts\n#EXTINF:9.5,\nseg4.ts\n#EXT-X-ENDLIST\n";
    match rewrite_body(body, &state(), "SECRET", "https://ex.com/a/b/media.m3u8?t=1") {
        Rewrite::Playlist { master, uris, text } => {
            assert!(!master);
            assert_eq!(
                uris,
                vec![
                    String::from("https://proxy.example/proxy?key=SECRET&url=https%3A%2F%2Fex%2Ecom%2Fa%2Fb%2Fseg1%2Ets"),
                    String::from("https://proxy.example/proxy?key=SECRET&url=https%3A%2F%2Fex%2Ecom%2Fa%2Fb%2Fhttp%3A%2F%2F"),
                    String::from("https://proxy.example/proxy?key=SECRET&url=https%3A%2F%2Fex%2Ecom%2Fa%2Fb%2Fhttp%3A%2F%2Fh%3A99999%2Fa%2Ets"),
                    String::from("https://proxy.example/proxy?key=SECRET&url=https%3A%2F%2Fex%2Ecom%2Fa%2Fb%2Fseg4%2Ets"),
                ]
            );
            let expected = format!(
                "#EXTM3U\n#EXT-X-TARGETDURATION:10\n#EXTINF:9.5,\n{}\n#EXTINF:9.5,\n{}\n#EXTINF:9.5,\n{}\n#EXTINF:9.5,\n{}\n#EXT-X-ENDLIST\n",
                uris[0], uris[1], uris[2], uris[3]
            );
            assert_eq!(text, expected.into_bytes());
        }
        _ => panic!("a media playlist was expected"),
    }
}

#[test]
fn relative_entry_of_a_target_that_is_no_base_is_not_resolved() {
    assert!(matches!(
        rewrite_body(MASTER, &state(), "SECRET", "no url at all"),
        Rewrite::Unresolvable
    ));
}

#[test]
fn absolute_entries_need_no_base() {
    let body = b"#EXTM3U\n#EXT-X-TARGETDURATION:4\n#EXTINF:4,\nhttps://cdn.example/a.ts\n";
    match rewrite_body(body, &state(), "SECRET", "no url at all") {
        Rewrite::Playlist { uris, .. } => {
            assert_eq!(
                uris,
                vec![String::from(
                    "https://proxy.example/proxy?key=SECRET&url=https%3A%2F%2Fcdn%2Eexample%2Fa%2Ets"
                )]
            );
        }
        _ => panic!("a playlist was expected"),
    }
}

#[test]
fn written_text_holds_the_rewritten_uris_in_order() {
    let body = b"#EXTM3U\n#EXT-X-STREAM-INF:BANDWIDTH=1,CODECS=\"avc1\",X-A=1,X-B=2\na.m3u8\n#EXT-X-I-FRAME-STREAM-INF:BANDWIDTH=2,URI=\"b.m3u8\"\n#EXT-X-STREAM-INF:BANDWIDTH=3\nc.m3u8\n";
    match rewrite_body(body, &state(), "SECRET", "https://ex.com/v/master.m3u8") {
        Rewrite::Playlist { master, uris, text } => {
            assert!(master);
            assert_eq!(uris.len(), 3);
            let text = String::from_utf8(text).unwrap();
            let mut from = 0;
            for uri in &uris {
                let at = text[from..].find(uri.as_str()).expect("the uri is in the text");
                from += at + uri.len();
            }
            assert!(uris[0].ends_with("https%3A%2F%2Fex%2Ecom%2Fv%2Fa%2Em3u8"));
            assert!(uris[1].ends_with("https%3A%2F%2Fex%2Ecom%2Fv%2Fb%2Em3u8"));
            assert!(uris[2].ends_with("https%3A%2F%2Fex%2Ecom%2Fv%2Fc%2Em3u8"));
        }
        _ => panic!("a master playlist was expected"),
    }
}
