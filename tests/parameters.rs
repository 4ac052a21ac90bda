use std::sync::Arc;

use ffmpeg_next::codec::parameters::{
    INPUT_BUFFER_PADDING_SIZE, PIXEL_FORMAT_COUNT, SAMPLE_FORMAT_COUNT,
};
use ffmpeg_next::codec::Id;
use ffmpeg_next::media::Type;
use ffmpeg_next::{Block, Parameters, Release};

fn padded(data: &[u8]) -> Vec<u8> {
    let mut v = data.to_vec();
    v.extend(std::iter::repeat(0u8).take(INPUT_BUFFER_PADDING_SIZE));
    v
}

#[test]
fn new_is_empty_and_owned() {
    let p: Parameters = Parameters::new();
    assert_eq!(p.width(), 0);
    assert_eq!(p.height(), 0);
    assert_eq!(p.format(), -1);
    assert_eq!(p.codec_type(), Type::Unknown);
    assert_eq!(p.codec_id(), Id::none());
    assert!(p.extradata().is_empty());
    assert!(p.block().extradata.is_empty());
    assert_eq!(p.release(), Release::Freed);
}

#[test]
fn default_matches_new() {
    let p: Parameters = Parameters::default();
    assert_eq!(p.width(), 0);
    assert_eq!(p.format(), -1);
    assert_eq!(p.release(), Release::Freed);
}

#[test]
fn scalar_setters_round_trip() {
    let mut p: Parameters = Parameters::new();
    p.set_width(640);
    p.set_height(480);
    p.set_format(3);
    p.set_codec_type(Type::Audio);
    p.set_codec_id(Id::from_code(86018));
    assert_eq!(p.width(), 640);
    assert_eq!(p.height(), 480);
    assert_eq!(p.format(), 3);
    assert_eq!(p.codec_type(), Type::Audio);
    assert_eq!(p.medium(), Type::Audio);
    assert_eq!(p.codec_id().code, 86018);
    assert_eq!(p.id().code, 86018);
    assert_eq!(p.block().codec_type, 1);
}

#[test]
fn format_outside_known_range_reads_as_none() {
    let mut p: Parameters = Parameters::new();
    p.set_codec_type(Type::Video);
    p.set_format(100000);
    assert_eq!(p.format(), -1);
    assert_eq!(p.block().format, 100000);
    p.set_format(-7);
    assert_eq!(p.format(), -1);
    p.set_format(PIXEL_FORMAT_COUNT - 1);
    assert_eq!(p.format(), PIXEL_FORMAT_COUNT - 1);
    p.set_format(0);
    assert_eq!(p.format(), 0);
}

#[test]
fn audio_format_uses_sample_range() {
    let mut p: Parameters = Parameters::new();
    p.set_codec_type(Type::Audio);
    p.set_format(8);
    assert_eq!(p.format(), 8);
    p.set_format(SAMPLE_FORMAT_COUNT);
    assert_eq!(p.format(), -1);
    p.set_codec_type(Type::Video);
    assert_eq!(p.format(), SAMPLE_FORMAT_COUNT);
}

#[test]
fn unknown_media_code_reads_as_unknown() {
    let block = Block {
        codec_type: 17,
        codec_id: 0,
        width: 0,
        height: 0,
        format: -1,
        extradata: Vec::new(),
        extradata_size: 0,
    };
    let p: Parameters = Parameters::wrap(block, None);
    assert_eq!(p.codec_type(), Type::Unknown);
}

#[test]
fn extradata_round_trip_excludes_padding() {
    let mut p: Parameters = Parameters::new();
    p.set_extradata(vec![1, 2, 3, 4, 5]);
    assert_eq!(p.extradata(), &[1u8, 2, 3, 4, 5][..]);
    assert_eq!(p.block().extradata_size, 5);
}

#[test]
fn extradata_allocation_is_padded_with_zeros() {
    let mut p: Parameters = Parameters::new();
    p.set_extradata(vec![9, 8, 7]);
    let alloc = &p.block().extradata;
    assert_eq!(alloc.len(), 3 + INPUT_BUFFER_PADDING_SIZE);
    assert_eq!(INPUT_BUFFER_PADDING_SIZE, 64);
    assert_eq!(&alloc[..3], &[9u8, 8, 7][..]);
    assert!(alloc[3..].iter().all(|&b| b == 0));
}

#[test]
fn empty_extradata_still_padded() {
    let mut p: Parameters = Parameters::new();
    p.set_extradata(Vec::new());
    assert!(p.extradata().is_empty());
    assert_eq!(p.block().extradata.len(), INPUT_BUFFER_PADDING_SIZE);
}

#[test]
fn setting_extradata_twice_keeps_only_the_second() {
    let mut p: Parameters = Parameters::new();
    p.set_extradata(vec![1; 100]);
    p.set_extradata(vec![2, 2]);
    assert_eq!(p.extradata(), &[2u8, 2][..]);
    assert_eq!(p.block().extradata.len(), 2 + INPUT_BUFFER_PADDING_SIZE);
}

#[test]
fn duplicate_copies_fields_and_buffers_independently() {
    let mut p: Parameters = Parameters::new();
    p.set_width(1920);
    p.set_height(1080);
    p.set_format(0);
    p.set_extradata(vec![0xAA, 0xBB]);
    let mut d = p.duplicate();
    assert_eq!(d.width(), p.width());
    assert_eq!(d.height(), p.height());
    assert_eq!(d.format(), p.format());
    assert_eq!(d.extradata(), p.extradata());
    d.set_extradata(vec![1, 2, 3]);
    d.set_width(10);
    assert_eq!(p.extradata(), &[0xAAu8, 0xBB][..]);
    assert_eq!(p.width(), 1920);
    assert_eq!(d.extradata(), &[1u8, 2, 3][..]);
}

#[test]
fn duplicate_of_borrowed_is_owned() {
    let owner = Arc::new(7u32);
    let block = Block {
        codec_type: 0,
        codec_id: 27,
        width: 320,
        height: 240,
        format: 0,
        extradata: padded(&[5, 6]),
        extradata_size: 2,
    };
    let p = Parameters::wrap(block, Some(owner.clone()));
    let d = p.duplicate();
    assert_eq!(d.codec_id().code, 27);
    assert_eq!(d.extradata(), &[5u8, 6][..]);
    assert_eq!(d.release(), Release::Freed);
    assert_eq!(p.release(), Release::Kept);
}

#[test]
fn clone_from_keeps_ownership() {
    let owner = Arc::new(());
    let mut target = Parameters::wrap(Block {
        codec_type: -1,
        codec_id: 0,
        width: 0,
        height: 0,
        format: -1,
        extradata: Vec::new(),
        extradata_size: 0,
    }, Some(owner));
    let mut source: Parameters = Parameters::new();
    source.set_height(99);
    source.set_extradata(vec![4]);
    target.clone_from(&source);
    assert_eq!(target.height(), 99);
    assert_eq!(target.extradata(), &[4u8][..]);
    assert_eq!(target.release(), Release::Kept);
}

#[test]
fn borrowed_handle_leaves_block_to_token_holders() {
    let owner = Arc::new(String::from("codec context"));
    let p = Parameters::wrap(
        Block {
            codec_type: 1,
            codec_id: 0,
            width: 0,
            height: 0,
            format: 1,
            extradata: Vec::new(),
            extradata_size: 0,
        },
        Some(owner.clone()),
    );
    assert_eq!(Arc::strong_count(&owner), 2);
    assert_eq!(p.release(), Release::Kept);
    assert_eq!(Arc::strong_count(&owner), 1);
    assert_eq!(owner.as_str(), "codec context");
}

#[test]
fn width_reads_back_the_native_bits() {
    let mut p: Parameters = Parameters::new();
    p.set_width(u32::MAX);
    assert_eq!(p.block().width, -1);
    assert_eq!(p.width(), u32::MAX);
}
