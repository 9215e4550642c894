use aes::cipher::generic_array::GenericArray;
use aes::cipher::{BlockEncrypt, KeyInit};
use aes::Aes128;
use base64::Engine;
use ncmmiao::frame::parse_frame;
use ncmmiao::keys::{derive_key, key_from_plaintext};
use ncmmiao::metadata::{decode_metadata, json_bytes_from_plaintext, metadata_payload};
use ncmmiao::{dump, Key, KeyBox, Metadata, NcmError, Ncmfile};

const SIGNATURE: &[u8] = b"CTENFDAM";
const KEY_TAG: &[u8] = b"neteasecloudmusic";
const META_TAG: &[u8] = b"163 key(Don't modify):";
const JSON_TAG: &[u8] = b"music:";
const AUDIO_KEY: &[u8] = b"E7fT49x7dof9OKCg";

fn pad(mut data: Vec<u8>) -> Vec<u8> {
    let count = 16 - data.len() % 16;
    data.resize(data.len() + count, count as u8);
    data
}

fn encrypt(key: &[u8], data: &[u8]) -> Vec<u8> {
    let cipher = Aes128::new(GenericArray::from_slice(key));
    let mut out = Vec::new();
    for block in data.chunks(16) {
        let mut buffer = GenericArray::clone_from_slice(block);
        cipher.encrypt_block(&mut buffer);
        out.extend_from_slice(&buffer);
    }
    out
}

fn mask(data: Vec<u8>, with: u8) -> Vec<u8> {
    data.into_iter().map(|b| b ^ with).collect()
}

fn key_region(core: &[u8], key: &[u8]) -> Vec<u8> {
    let mut plain = KEY_TAG.to_vec();
    plain.extend_from_slice(key);
    mask(encrypt(core, &pad(plain)), 0x64)
}

fn meta_region_of(meta: &[u8], body: &[u8]) -> Vec<u8> {
    let mut plain = JSON_TAG.to_vec();
    plain.extend_from_slice(body);
    let text = base64::engine::general_purpose::STANDARD.encode(encrypt(meta, &pad(plain)));
    let mut region = META_TAG.to_vec();
    region.extend_from_slice(text.as_bytes());
    mask(region, 0x63)
}

fn meta_region(meta: &[u8], json: &str) -> Vec<u8> {
    meta_region_of(meta, json.as_bytes())
}

fn scramble(key: &[u8], audio: &[u8]) -> Vec<u8> {
    let table = KeyBox::new(key);
    let mut out = Vec::new();
    for piece in audio.chunks(0x8000) {
        let mut piece = piece.to_vec();
        table.apply(&mut piece);
        out.extend_from_slice(&piece);
    }
    out
}

fn container(key_region: &[u8], meta_region: &[u8], cover: &[u8], payload: &[u8]) -> Vec<u8> {
    let mut out = SIGNATURE.to_vec();
    out.extend_from_slice(&[1, 2]);
    out.extend_from_slice(&(key_region.len() as u32).to_le_bytes());
    out.extend_from_slice(key_region);
    out.extend_from_slice(&(meta_region.len() as u32).to_le_bytes());
    out.extend_from_slice(meta_region);
    out.extend_from_slice(&0xdeadbeefu32.to_le_bytes());
    out.extend_from_slice(&[9, 9, 9, 9, 9]);
    out.extend_from_slice(&(cover.len() as u32).to_le_bytes());
    out.extend_from_slice(cover);
    out.extend_from_slice(payload);
    out
}

fn plain_audio(length: usize) -> Vec<u8> {
    (0..length).map(|i| (i * 7 + 3) as u8).collect()
}

fn valid_container(json: &str, cover: &[u8], audio: &[u8]) -> Vec<u8> {
    let keys = Key::fixed();
    container(
        &key_region(&keys.core, AUDIO_KEY),
        &meta_region(&keys.meta, json),
        cover,
        &scramble(AUDIO_KEY, audio),
    )
}

#[test]
fn decodes_a_synthetic_container_end_to_end() {
    let audio = plain_audio(8000);
    let bytes = valid_container("{\"format\":\"mp3\",\"musicName\":\"X\"}", &[], &audio);
    let mut file = Ncmfile::new("X.ncm", bytes).unwrap();
    let output = file.dump().unwrap();
    assert_eq!(output.filename, "X.mp3");
    assert_eq!(output.audio, audio);
    assert_eq!(output.cover, Vec::<u8>::new());
    assert_eq!(
        output.metadata,
        Metadata { format: "mp3".into(), music_name: Some("X".into()), album: None }
    );
    assert_eq!(file.position(), file.size());
}

#[test]
fn decoded_audio_has_the_known_bytes() {
    let audio = plain_audio(40000);
    let payload = scramble(b"0123456789abcdef", &audio);
    assert_eq!(&payload[..4], &[30, 165, 198, 97]);
    assert_eq!(&payload[32766..32770], &[183, 85, 30, 165]);
    assert_eq!(&payload[39997..], &[45, 181, 207]);
    let keys = Key::fixed();
    let bytes = container(
        &key_region(&keys.core, b"0123456789abcdef"),
        &meta_region(&keys.meta, "{\"format\":\"flac\"}"),
        &[],
        &payload,
    );
    let output = Ncmfile::new("long.ncm", bytes).unwrap().dump().unwrap();
    assert_eq!(output.audio, audio);
    assert_eq!(output.filename, "long.flac");
}

#[test]
fn decoded_audio_is_as_long_as_the_payload() {
    for length in [0usize, 1, 255, 256, 8000, 32767, 32768, 32769, 70000] {
        let cover = vec![0xabu8; 37];
        let bytes = valid_container("{\"format\":\"mp3\"}", &cover, &plain_audio(length));
        let total = bytes.len();
        let mut file = Ncmfile::new("a.ncm", bytes).unwrap();
        let frame = parse_frame(&mut file).unwrap();
        assert_eq!(
            frame.header_size as usize,
            31 + frame.key_blob.len() + frame.meta_blob.len() + frame.cover.len()
        );
        let mut file = Ncmfile::new("a.ncm", file_bytes(&mut file)).unwrap();
        let output = file.dump().unwrap();
        assert_eq!(output.audio.len(), total - frame.header_size as usize);
        assert_eq!(output.audio.len(), length);
        assert_eq!(output.audio, plain_audio(length));
    }
}

fn file_bytes(file: &mut Ncmfile) -> Vec<u8> {
    let size = file.size();
    file.seekread_from(0, 0).unwrap();
    file.seekread(size).unwrap()
}

#[test]
fn dump_hands_the_cover_over_as_it_is() {
    let cover: Vec<u8> = (0..=255u8).collect();
    let bytes = valid_container("{\"format\":\"mp3\"}", &cover, &plain_audio(10));
    let output = Ncmfile::new("c.ncm", bytes).unwrap().dump().unwrap();
    assert_eq!(output.cover, cover);
    assert_eq!(output.audio, plain_audio(10));
}

#[test]
fn dump_reads_title_and_album_where_they_are_strings() {
    let json = "{\"musicId\":1,\"musicName\":\"晴天\",\"artist\":[[\"周杰伦\",6452]],\"album\":\"叶惠美\",\"bitrate\":320000,\"format\":\"flac\"}";
    let bytes = valid_container(json, &[], &[]);
    let output = Ncmfile::new("x.ncm", bytes).unwrap().dump().unwrap();
    assert_eq!(
        output.metadata,
        Metadata {
            format: "flac".into(),
            music_name: Some("晴天".into()),
            album: Some("叶惠美".into()),
        }
    );
    let json = "{\"musicName\":7,\"album\":[\"a\"],\"format\":\"mp3\"}";
    let bytes = valid_container(json, &[], &[]);
    let output = Ncmfile::new("x.ncm", bytes).unwrap().dump().unwrap();
    assert_eq!(output.metadata, Metadata { format: "mp3".into(), music_name: None, album: None });
}

#[test]
fn dump_with_other_keys_needs_those_keys() {
    let keys = Key { core: b"core key 16bytes".to_vec(), meta: b"meta key 16bytes".to_vec() };
    let audio = plain_audio(300);
    let bytes = container(
        &key_region(&keys.core, b"k"),
        &meta_region(&keys.meta, "{\"format\":\"ogg\"}"),
        &[1, 2, 3],
        &scramble(b"k", &audio),
    );
    let mut file = Ncmfile::new("other.ncm", bytes.clone()).unwrap();
    let output = dump(&mut file, &keys).unwrap();
    assert_eq!(output.filename, "other.ogg");
    assert_eq!(output.audio, audio);
    assert_eq!(output.cover, vec![1, 2, 3]);
    let mut file = Ncmfile::new("other.ncm", bytes).unwrap();
    assert!(file.dump().is_err());
}

#[test]
fn dump_starts_at_the_cursor() {
    let audio = plain_audio(100);
    let mut bytes = vec![0xee; 5];
    bytes.extend_from_slice(&valid_container("{\"format\":\"mp3\"}", &[], &audio));
    let mut file = Ncmfile::new("late.ncm", bytes).unwrap();
    file.skip(5).unwrap();
    assert_eq!(file.dump().unwrap().audio, audio);
}

#[test]
fn wrong_signature_is_not_a_container() {
    let good = valid_container("{\"format\":\"mp3\"}", &[], &plain_audio(64));
    for i in 0..8 {
        let mut bytes = good.clone();
        bytes[i] ^= 0x20;
        let mut file = Ncmfile::new("bad.ncm", bytes).unwrap();
        assert_eq!(file.dump().err(), Some(NcmError::NotNcmFile));
        assert_eq!(file.position(), 0);
    }
    let mut file = Ncmfile::new("bad.ncm", b"ctenfdam".to_vec()).unwrap();
    assert_eq!(file.dump().err(), Some(NcmError::NotNcmFile));
    let mut file = Ncmfile::new("bad.ncm", vec![0; 4096]).unwrap();
    assert_eq!(file.dump().err(), Some(NcmError::NotNcmFile));
    let mut file = Ncmfile::new("bad.ncm", b"ID3\x03\x00\x00\x00\x00\x00\x00".to_vec()).unwrap();
    assert_eq!(parse_frame(&mut file).err(), Some(NcmError::NotNcmFile));
}

#[test]
fn a_container_shorter_than_its_signature_cannot_be_read() {
    for length in 0..8 {
        let mut file = Ncmfile::new("short.ncm", SIGNATURE[..length].to_vec()).unwrap();
        assert_eq!(file.dump().err(), Some(NcmError::FileReadError));
    }
}

#[test]
fn a_truncated_header_cannot_be_read() {
    let good = valid_container("{\"format\":\"mp3\"}", &[5; 20], &[]);
    let mut whole = Ncmfile::new("t.ncm", good.clone()).unwrap();
    assert_eq!(parse_frame(&mut whole).unwrap().header_size as usize, good.len());
    for length in 8..good.len() {
        let mut file = Ncmfile::new("t.ncm", good[..length].to_vec()).unwrap();
        assert_eq!(parse_frame(&mut file).err(), Some(NcmError::FileReadError));
        assert_eq!(file.position(), 0);
        assert_eq!(file.dump().err(), Some(NcmError::FileReadError));
    }
}

#[test]
fn parse_frame_extracts_the_regions() {
    let bytes = container(&[1, 2, 3], &[4, 5], &[6, 7, 8, 9], &[10, 11]);
    let mut file = Ncmfile::new("f.ncm", bytes).unwrap();
    let frame = parse_frame(&mut file).unwrap();
    assert_eq!(frame.key_blob, vec![1, 2, 3]);
    assert_eq!(frame.meta_blob, vec![4, 5]);
    assert_eq!(frame.checksum, 0xdeadbeef);
    assert_eq!(frame.cover, vec![6, 7, 8, 9]);
    assert_eq!(frame.header_size, 31 + 3 + 2 + 4);
    assert_eq!(file.position(), 40);
    assert_eq!(file.seekread_to_end(), Ok(vec![10, 11]));
}

#[test]
fn parse_frame_takes_empty_regions() {
    let bytes = container(&[], &[], &[], &[]);
    let mut file = Ncmfile::new("e.ncm", bytes).unwrap();
    let frame = parse_frame(&mut file).unwrap();
    assert_eq!(frame.header_size, 31);
    assert!(frame.key_blob.is_empty() && frame.meta_blob.is_empty() && frame.cover.is_empty());
}

#[test]
fn a_key_region_without_a_key_is_not_a_container() {
    let keys = Key::fixed();
    let meta = meta_region(&keys.meta, "{\"format\":\"mp3\"}");
    let good = key_region(&keys.core, AUDIO_KEY);
    let mut misaligned = good.clone();
    misaligned.pop();
    let mut garbage = good.clone();
    let last = garbage.len() - 1;
    garbage[last] ^= 0xff;
    let only_tag = mask(encrypt(&keys.core, &pad(KEY_TAG.to_vec())), 0x64);
    let short = mask(encrypt(&keys.core, &pad(b"netease".to_vec())), 0x64);
    let zero_padding = mask(encrypt(&keys.core, &[0u8; 32]), 0x64);
    for region in [misaligned, vec![], only_tag, short, zero_padding] {
        let bytes = container(&region, &meta, &[], &[1, 2, 3]);
        let mut file = Ncmfile::new("k.ncm", bytes).unwrap();
        assert_eq!(file.dump().err(), Some(NcmError::NotNcmFile));
        assert_eq!(file.position(), 0);
    }
    let bytes = container(&garbage, &meta, &[], &[1, 2, 3]);
    let result = Ncmfile::new("k.ncm", bytes).unwrap().dump();
    assert!(result.is_err() || result.unwrap().audio != scramble(AUDIO_KEY, &[1, 2, 3]));
}

#[test]
fn a_metadata_region_without_a_record_is_reported() {
    let keys = Key::fixed();
    let key = key_region(&keys.core, AUDIO_KEY);
    let good = meta_region(&keys.meta, "{\"format\":\"mp3\"}");
    let mut not_base64 = good.clone();
    not_base64[30] = b'!' ^ 0x63;
    let mut misaligned = META_TAG.to_vec();
    misaligned.extend_from_slice(b"AAAA");
    let mut bad_padding = META_TAG.to_vec();
    let text = base64::engine::general_purpose::STANDARD.encode(encrypt(&keys.meta, &[0u8; 16]));
    bad_padding.extend_from_slice(text.as_bytes());
    let regions = [
        vec![],
        mask(META_TAG[..21].to_vec(), 0x63),
        mask(META_TAG.to_vec(), 0x63),
        not_base64,
        mask(misaligned, 0x63),
        mask(bad_padding, 0x63),
        meta_region_of(&keys.meta, &[0xff, 0xfe, 0x80]),
        meta_region(&keys.meta, "{\"format\":"),
        meta_region(&keys.meta, ""),
        meta_region(&keys.meta, "{\"musicName\":\"X\"}"),
        meta_region(&keys.meta, "{\"format\":3}"),
        meta_region(&keys.meta, "[\"format\"]"),
        meta_region(&keys.meta, "\"format\""),
        mask(
            {
                let mut region = META_TAG.to_vec();
                let cipher = encrypt(&keys.meta, &pad(b"mus".to_vec()));
                region.extend_from_slice(
                    base64::engine::general_purpose::STANDARD.encode(cipher).as_bytes(),
                );
                region
            },
            0x63,
        ),
    ];
    for region in regions {
        assert_eq!(decode_metadata(&keys.meta, &region).err(), Some(NcmError::CannotReadMetaInfo));
        let bytes = container(&key, &region, &[], &[1, 2, 3]);
        let mut file = Ncmfile::new("m.ncm", bytes).unwrap();
        assert_eq!(file.dump().err(), Some(NcmError::CannotReadMetaInfo));
        assert_eq!(file.position(), 0);
    }
    assert!(decode_metadata(&keys.meta, &good).is_ok());
    assert_eq!(decode_metadata(&[0; 5], &good).err(), Some(NcmError::CannotReadMetaInfo));
}

#[test]
fn the_first_failing_stage_names_the_error() {
    let keys = Key::fixed();
    let bad_key = vec![1, 2, 3];
    let bad_meta = vec![4, 5, 6];
    let bytes = container(&bad_key, &bad_meta, &[], &[]);
    assert_eq!(Ncmfile::new("o.ncm", bytes.clone()).unwrap().dump().err(), Some(NcmError::NotNcmFile));
    let truncated = bytes[..bytes.len() - 1].to_vec();
    assert_eq!(
        Ncmfile::new("o.ncm", truncated).unwrap().dump().err(),
        Some(NcmError::FileReadError)
    );
    let bytes = container(&key_region(&keys.core, AUDIO_KEY), &bad_meta, &[], &[]);
    assert_eq!(
        Ncmfile::new("o.ncm", bytes).unwrap().dump().err(),
        Some(NcmError::CannotReadMetaInfo)
    );
}

#[test]
fn key_derivation_gives_the_key_behind_the_tag() {
    let keys = Key::fixed();
    assert_eq!(derive_key(&keys.core, &key_region(&keys.core, AUDIO_KEY)), Some(AUDIO_KEY.to_vec()));
    assert_eq!(derive_key(&keys.core, &key_region(&keys.core, b"k")), Some(b"k".to_vec()));
    let long = vec![0x5au8; 111];
    assert_eq!(derive_key(&keys.core, &key_region(&keys.core, &long)), Some(long));
}

#[test]
fn key_derivation_is_deterministic() {
    let keys = Key::fixed();
    let region = key_region(&keys.core, AUDIO_KEY);
    let first = derive_key(&keys.core, &region);
    let second = derive_key(&keys.core, &region.clone());
    assert_eq!(first, second);
    assert_eq!(first, derive_key(&Key::fixed().core, &region));
    let garbage = vec![0x11u8; 32];
    assert_eq!(derive_key(&keys.core, &garbage), derive_key(&keys.core, &garbage));
}

#[test]
fn key_derivation_refuses_what_holds_no_key() {
    let keys = Key::fixed();
    let region = key_region(&keys.core, AUDIO_KEY);
    assert_eq!(derive_key(&keys.core, &region[..region.len() - 1]), None);
    assert_eq!(derive_key(&keys.core, &[]), None);
    assert_eq!(derive_key(&keys.core[..15], &region), None);
    assert_eq!(derive_key(&keys.core, &mask(encrypt(&keys.core, &pad(KEY_TAG.to_vec())), 0x64)), None);
}

#[test]
fn key_from_plaintext_unpads_and_drops_the_tag() {
    let mut plain = KEY_TAG.to_vec();
    plain.extend_from_slice(b"abc");
    assert_eq!(key_from_plaintext(&pad(plain)), Some(b"abc".to_vec()));
    assert_eq!(key_from_plaintext(&pad(KEY_TAG.to_vec())), None);
    assert_eq!(key_from_plaintext(&[0u8; 32]), None);
    assert_eq!(key_from_plaintext(&[]), None);
    let mut any_tag = vec![0u8; 17];
    any_tag.push(42);
    assert_eq!(key_from_plaintext(&pad(any_tag)), Some(vec![42]));
}

#[test]
fn metadata_payload_unmasks_and_drops_the_tag() {
    let mut region = META_TAG.to_vec();
    region.extend_from_slice(b"QUJD");
    assert_eq!(metadata_payload(&mask(region, 0x63)), Some(b"QUJD".to_vec()));
    assert_eq!(metadata_payload(&mask(META_TAG.to_vec(), 0x63)), Some(vec![]));
    assert_eq!(metadata_payload(&[0; 21]), None);
    assert_eq!(metadata_payload(&[0x63; 23]), Some(vec![0]));
}

#[test]
fn json_bytes_from_plaintext_unpads_and_drops_the_tag() {
    let mut plain = JSON_TAG.to_vec();
    plain.extend_from_slice(b"{}");
    assert_eq!(json_bytes_from_plaintext(&pad(plain)), Some(b"{}".to_vec()));
    assert_eq!(json_bytes_from_plaintext(&pad(JSON_TAG.to_vec())), Some(vec![]));
    assert_eq!(json_bytes_from_plaintext(&pad(b"music".to_vec())), None);
    assert_eq!(json_bytes_from_plaintext(&[0u8; 16]), None);
}

#[test]
fn metadata_needs_only_its_format() {
    assert_eq!(
        Metadata::from_fields(Some("mp3".into()), None, None),
        Some(Metadata { format: "mp3".into(), music_name: None, album: None })
    );
    assert_eq!(
        Metadata::from_fields(Some("flac".into()), Some("X".into()), Some("Y".into())),
        Some(Metadata { format: "flac".into(), music_name: Some("X".into()), album: Some("Y".into()) })
    );
    assert_eq!(Metadata::from_fields(None, Some("X".into()), Some("Y".into())), None);
}

#[test]
fn fixed_keys_are_the_embedded_constants() {
    let keys = Key::fixed();
    assert_eq!(keys.core, b"hzHRAmso5kInbaxW".to_vec());
    assert_eq!(keys.meta, b"#14ljk_!\\]&0U<'(".to_vec());
}
