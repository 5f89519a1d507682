use image::Luma;
use nft_registry::artifact::{
    bitmap_uri, data_uri, png_uri, push_decimal, qr_uri, redirect_url, Bitmap,
};
use nft_registry::identity::Identity;
use nft_registry::registry::State;
use nft_registry::types::InitArgs;
use qrcode::QrCode;

const PREFIX: &str = "data:image/png;base64, ";

fn decimal(n: u64) -> String {
    let mut out = String::new();
    push_decimal(&mut out, n);
    out
}

fn picture_of(address: &str) -> image::GrayImage {
    let encoded = address.strip_prefix(PREFIX).unwrap();
    let png = base64::decode(encoded).unwrap();
    assert_eq!(&png[..8], &[0x89, b'P', b'N', b'G', 0x0d, 0x0a, 0x1a, 0x0a]);
    image::load_from_memory(&png).unwrap().into_luma8()
}

#[test]
fn decimal_digits() {
    assert_eq!(decimal(0), "0");
    assert_eq!(decimal(7), "7");
    assert_eq!(decimal(10), "10");
    assert_eq!(decimal(1234567890), "1234567890");
    assert_eq!(decimal(u64::MAX), "18446744073709551615");
    let mut out = "id=".to_string();
    push_decimal(&mut out, 405);
    assert_eq!(out, "id=405");
}

#[test]
fn redirect_links() {
    assert_eq!(redirect_url("https://badges.example", 0), "https://badges.example/nft/0");
    assert_eq!(redirect_url("https://badges.example/", 42), "https://badges.example//nft/42");
    assert_eq!(redirect_url("", 9), "/nft/9");
    assert_eq!(redirect_url("x", u64::MAX), "x/nft/18446744073709551615");
}

#[test]
fn data_addresses() {
    assert_eq!(data_uri("QUJD"), "data:image/png;base64, QUJD");
    assert_eq!(data_uri(""), "data:image/png;base64, ");
}

#[test]
fn png_bytes_are_written_in_base64() {
    assert_eq!(
        png_uri(Some(b"hello world".to_vec())),
        Ok("data:image/png;base64, aGVsbG8gd29ybGQ=".to_string())
    );
    assert_eq!(png_uri(Some(vec![])), Ok("data:image/png;base64, ".to_string()));
    assert_eq!(png_uri(Some(vec![0xfb, 0xff])), Ok("data:image/png;base64, +/8=".to_string()));
    assert_eq!(png_uri(None), Err("Failed to write image to bytes".to_string()));
}

#[test]
fn bitmaps_become_png_files() {
    let bitmap = Bitmap { width: 3, height: 2, pixels: vec![0, 255, 0, 255, 0, 128] };
    let address = bitmap_uri(Some(bitmap)).unwrap();
    let picture = picture_of(&address);
    assert_eq!((picture.width(), picture.height()), (3, 2));
    assert_eq!(picture.into_raw(), vec![0, 255, 0, 255, 0, 128]);
}

#[test]
fn bitmaps_that_are_no_picture() {
    let short = Bitmap { width: 3, height: 2, pixels: vec![0, 255, 0] };
    assert_eq!(bitmap_uri(Some(short)), Err("Failed to write image to bytes".to_string()));
    let flat = Bitmap { width: 0, height: 0, pixels: vec![] };
    assert_eq!(bitmap_uri(Some(flat)), Err("Failed to write image to bytes".to_string()));
    assert_eq!(bitmap_uri(None), Err("Failed to create QR code".to_string()));
}

#[test]
fn links_become_qr_codes() {
    let url = "https://badges.example/nft/0";
    let address = qr_uri(url).unwrap();
    let picture = picture_of(&address);
    let expected = QrCode::new(url.as_bytes()).unwrap().render::<Luma<u8>>().build();
    assert_eq!(picture.dimensions(), expected.dimensions());
    assert_eq!(picture.into_raw(), expected.into_raw());
    assert_eq!(qr_uri(url), Ok(address));
    assert_ne!(qr_uri("https://badges.example/nft/1"), qr_uri(url));
}

#[test]
fn links_too_long_for_a_qr_code() {
    let url = "x".repeat(8000);
    assert_eq!(qr_uri(&url), Err("Failed to create QR code".to_string()));
}

#[test]
fn holder_is_shown_the_code_of_their_link() {
    let admin = Identity::new(vec![9]).unwrap();
    let alice = Identity::new(vec![1]).unwrap();
    let bob = Identity::new(vec![2]).unwrap();
    let mut state = State::new();
    state.init(
        &admin,
        InitArgs {
            custodians: None,
            logo: None,
            name: "Badges".to_string(),
            symbol: "BDG".to_string(),
            base_url: "https://badges.example".to_string(),
        },
    );
    state.mint(&alice, vec![]).unwrap();
    state.mint(&bob, vec![]).unwrap();
    assert_eq!(state.get_metadata_for_user(&bob), qr_uri("https://badges.example/nft/1").unwrap());
    assert_eq!(
        state.get_metadata_for_user(&alice),
        qr_uri("https://badges.example/nft/0").unwrap()
    );
    assert!(state.get_metadata_for_user(&alice).starts_with(PREFIX));
    state.set_base_url(&admin, "https://medals.example".to_string()).unwrap();
    assert_eq!(state.get_metadata_for_user(&bob), qr_uri("https://medals.example/nft/1").unwrap());
}

#[test]
fn caller_without_token_is_told_so() {
    let alice = Identity::new(vec![1]).unwrap();
    let bob = Identity::new(vec![2]).unwrap();
    let mut state = State::new();
    assert_eq!(state.get_metadata_for_user(&alice), "No NFT found for user");
    state.mint(&alice, vec![]).unwrap();
    assert_eq!(state.get_metadata_for_user(&bob), "No NFT found for user");
    state.burn(&alice, 0).unwrap();
    assert_eq!(state.get_metadata_for_user(&alice), "No NFT found for user");
}

#[test]
fn a_base_address_too_long_for_a_code() {
    let alice = Identity::new(vec![1]).unwrap();
    let mut state = State::new();
    state.init(
        &alice,
        InitArgs {
            custodians: None,
            logo: None,
            name: String::new(),
            symbol: String::new(),
            base_url: "y".repeat(8000),
        },
    );
    state.mint(&alice, vec![]).unwrap();
    assert_eq!(state.get_metadata_for_user(&alice), "Failed to create QR code");
}
