use std::io::{Cursor, Write};

use cjdic2_core::add;
use cjdic2_core::archive::{install_decision, DictionaryArchive, IndexRead, InstallDecision};
use cjdic2_core::codec::{encode_glossary, glossary_hash, train_glossary_dictionary, GlossaryDecoder};
use cjdic2_core::db::{
    attach_statement, attach_uri, db_file, db_schema, is_attached_read_only, mmap_statement,
    schema_plan, AttachState, DbChild, SchemaPlan, USER_DBFILE,
};
use cjdic2_core::dictionary::{
    bank_file, dictionary_index, highest_term_bank, remove_timestamp, tag_record, term_bank_number,
    term_meta_record, term_record, BankKind,
};
use cjdic2_core::download::{check_download_complete, partial_file_name, range_header};
use cjdic2_core::json::{read_json_rows, read_json_value};
use cjdic2_core::intern::InternCache;
use cjdic2_core::progress::ImportSteps;
use cjdic2_core::setup::{needs_download, SetupProgress};
use cjdic2_core::normalize::{convertible_reading, normalize_reading, normalize_term};
use cjdic2_core::numbers::{decimal_text, parse_usize};
use cjdic2_core::search::{normalize_glob_query, plan_yomitan_search};
use cjdic2_core::sync::{archive_index_for, import_key_of, plan_dictionary_sync};
use cjdic2_core::tokenizer::{search_index_text, split_text, JaTokenizer};
use cjdic2_core::{CJDicError, Timer, TokenizeSegment, YomitanZipImportResult};

fn strings(v: &[&str]) -> Vec<String> {
    v.iter().map(|s| s.to_string()).collect()
}

fn chars(s: &str) -> Vec<char> {
    s.chars().collect()
}

fn zip_of(entries: &[(&str, &str)]) -> Vec<u8> {
    let mut w = zip::ZipWriter::new(Cursor::new(Vec::new()));
    for (name, text) in entries {
        w.start_file(*name, zip::write::SimpleFileOptions::default()).unwrap();
        w.write_all(text.as_bytes()).unwrap();
    }
    w.finish().unwrap().into_inner()
}

#[test]
fn it_works() {
    let result = add(2, 2);
    assert_eq!(result, 4);
}

#[test]
fn normalize_term_keeps_lowercased_letters() {
    assert_eq!(normalize_term("Hello, World! 42"), "helloworld");
    assert_eq!(normalize_term("食べる"), "食べる");
    assert_eq!(normalize_term("ÀB-c"), "àbc");
    assert_eq!(normalize_term(""), "");
}

#[test]
fn normalize_term_of_concatenation() {
    let a = "Ab;";
    let b = "C d";
    assert_eq!(normalize_term(&format!("{a}{b}")), format!("{}{}", normalize_term(a), normalize_term(b)));
}

#[test]
fn normalize_term_twice_is_once() {
    let once = normalize_term("Hello, World");
    assert_eq!(normalize_term(&once), once);
}

#[test]
fn normalize_reading_turns_katakana_into_hiragana() {
    assert_eq!(normalize_reading("カタカナ"), "かたかな");
    assert_eq!(normalize_reading("カタカナ is a type of kana"), "かたかな is a type of kana");
    assert_eq!(normalize_reading("ラーメン"), "らあめん");
    assert_eq!(normalize_reading("abc"), "abc");
    assert_eq!(normalize_reading("ｶﾞｯｺｳ"), "がっこう");
    assert_eq!(normalize_reading("ﾊﾟﾝ"), "ぱん");
}

#[test]
fn readings_with_stray_sound_marks_are_not_convertible() {
    assert!(convertible_reading("ｶﾞｯｺｳ"));
    assert!(convertible_reading("カタカナ"));
    assert!(convertible_reading(""));
    assert!(!convertible_reading("ﾞ"));
    assert!(!convertible_reading("ｱﾟ"));
    assert!(!convertible_reading("ｶﾟ"));
    assert!(!convertible_reading("ﾊﾞﾞ"));
}

#[test]
fn glob_query_keeps_wildcards() {
    assert_eq!(normalize_glob_query("Ab*C?"), "ab*c?");
    assert_eq!(normalize_glob_query("[X]y\\z"), "[x]y\\z");
    assert_eq!(normalize_glob_query("Plain Text"), normalize_term("Plain Text"));
    assert_eq!(normalize_glob_query("!!"), "");
}

#[test]
fn search_with_term_and_reading() {
    let p = plan_yomitan_search("食べる", "たべる", 10, 0);
    assert_eq!(p.term_pattern, "食べる");
    assert_eq!(p.reading_pattern, "たべる");
    assert_eq!(p.timer_label, "search_yomitan: 食べる (たべる) offset=0 limit=10");
    assert!(p.sql.contains("WHERE term GLOB ?1 AND reading GLOB ?2\n"));
    assert!(p.sql.contains("LIMIT ?3 OFFSET ?4"));
    assert!(p.sql.contains("LEFT JOIN glossary.glossaries   g  ON g.id  = t.glossary_id"));
    assert_eq!((p.limit, p.offset), (10, 0));
}

#[test]
fn search_with_same_query_matches_either() {
    let p = plan_yomitan_search("Neko", "Neko", 5, 20);
    assert_eq!(p.term_pattern, "neko");
    assert_eq!(p.timer_label, "search_yomitan: Neko offset=20 limit=5");
    assert!(p.sql.contains("WHERE term GLOB ?1 OR reading GLOB ?2\n"));
}

#[test]
fn search_with_empty_patterns_compares_equal() {
    let p = plan_yomitan_search("!!", "", 1, 0);
    assert_eq!(p.term_pattern, "");
    assert!(p.sql.contains("WHERE term = ?1 AND reading = ?2\n"));
}

#[test]
fn decimal_and_parse() {
    assert_eq!(decimal_text(0), "0");
    assert_eq!(decimal_text(1234567890), "1234567890");
    assert_eq!(parse_usize(&chars("42")), Some(42));
    assert_eq!(parse_usize(&chars("+7")), Some(7));
    assert_eq!(parse_usize(&chars("007")), Some(7));
    assert_eq!(parse_usize(&chars("-1")), None);
    assert_eq!(parse_usize(&chars("+")), None);
    assert_eq!(parse_usize(&chars("")), None);
    assert_eq!(parse_usize(&chars("12a")), None);
    assert_eq!(parse_usize(&chars("99999999999999999999999")), None);
    let n = 98765usize;
    assert_eq!(parse_usize(&chars(&decimal_text(n as u64))), Some(n));
}

#[test]
fn bank_names_and_numbers() {
    assert_eq!(bank_file(BankKind::Term, 3), "term_bank_3.json");
    assert_eq!(bank_file(BankKind::TermMeta, 1), "term_meta_bank_1.json");
    assert_eq!(bank_file(BankKind::Tag, 12), "tag_bank_12.json");
    assert_eq!(term_bank_number("term_bank_12.json"), Some(12));
    assert_eq!(term_bank_number(&bank_file(BankKind::Term, 40)), Some(40));
    assert_eq!(term_bank_number("term_bank_x.json"), None);
    assert_eq!(term_bank_number("term_bank_3"), None);
    assert_eq!(term_bank_number("tag_bank_3.json"), None);
    let names = vec![
        Some("index.json".to_string()),
        Some("term_bank_2.json".to_string()),
        None,
        Some("term_bank_10.json".to_string()),
        Some("term_meta_bank_30.json".to_string()),
    ];
    assert_eq!(highest_term_bank(&names), 10);
    assert_eq!(highest_term_bank(&vec![]), 0);
}

#[test]
fn titles_lose_their_stamp() {
    assert_eq!(remove_timestamp("JMdict [2024-01-01]"), "JMdict");
    assert_eq!(remove_timestamp("A [b] [c]"), "A [b]");
    assert_eq!(remove_timestamp("Plain"), "Plain");
    assert_eq!(remove_timestamp("[x]"), "");
    assert_eq!(remove_timestamp("[JA] JMdict [2024-05-01]"), "[JA] JMdict");
    assert_eq!(remove_timestamp("Tabs\t\t[1]"), "Tabs");
}

#[test]
fn sync_plan_orders_and_dedups() {
    let dir = strings(&["[JA] b.zip", "a.zip", "c.zip", "a.zip", "[x]  A.zip"]);
    let installed = strings(&["c.zip", "z.zip", "y.zip"]);
    let r = plan_dictionary_sync(&dir, &installed);
    assert_eq!(r.new_dicts, strings(&["[x]  A.zip", "a.zip", "[JA] b.zip"]));
    assert_eq!(r.to_be_removed_dicts, strings(&["y.zip", "z.zip"]));
}

#[test]
fn sync_plan_of_matching_sets_is_empty() {
    let dir = strings(&["a.zip", "b.zip"]);
    let r = plan_dictionary_sync(&dir, &strings(&["b.zip", "a.zip"]));
    assert!(r.new_dicts.is_empty());
    assert!(r.to_be_removed_dicts.is_empty());
}

#[test]
fn sync_reaches_directory() {
    let dir = strings(&["a.zip", "b.zip", "d.zip"]);
    let installed = strings(&["b.zip", "c.zip"]);
    let r = plan_dictionary_sync(&dir, &installed);
    let mut after: Vec<String> = installed.into_iter().filter(|n| !r.to_be_removed_dicts.contains(n)).collect();
    after.extend(r.new_dicts.iter().cloned());
    after.sort();
    assert_eq!(after, dir);
}

#[test]
fn every_new_dict_has_an_archive() {
    let dir = strings(&["x.zip", "[t] y.zip", "x.zip"]);
    let r = plan_dictionary_sync(&dir, &strings(&["q.zip"]));
    assert_eq!(r.new_dicts.len(), 2);
    for n in &r.new_dicts {
        let i = archive_index_for(&dir, n).unwrap();
        assert_eq!(&dir[i], n);
    }
    assert_eq!(archive_index_for(&dir, "x.zip"), Some(2));
}

#[test]
fn import_keys_and_sources() {
    assert_eq!(import_key_of(&chars("[JA]  name.zip")), chars("name.zip"));
    assert_eq!(import_key_of(&chars("[open")), chars("[open"));
    assert_eq!(import_key_of(&chars("x[y]")), chars("x[y]"));
    let dir = strings(&["a.zip", "b.zip", "a.zip"]);
    assert_eq!(archive_index_for(&dir, "a.zip"), Some(2));
    assert_eq!(archive_index_for(&dir, "b.zip"), Some(1));
    assert_eq!(archive_index_for(&dir, "c.zip"), None);
}

#[test]
fn error_messages() {
    assert_eq!(CJDicError::Database("x".into()).message(), "Database error: x");
    assert_eq!(CJDicError::Serialization("x".into()).message(), "Serialization error: x");
    assert_eq!(CJDicError::AnyhowError("x".into()).message(), "Anyhow error: x");
    assert_eq!(CJDicError::IOError("x".into()).message(), "IO error: x");
    assert_eq!(CJDicError::FileNameNotFound.message(), "File name not found");
    assert_eq!(CJDicError::ZipError("x".into()).message(), "Zip error: x");
    assert_eq!(CJDicError::VibratoError("x".into()).message(), "Vibrato error: x");
    assert_eq!(CJDicError::FromUtf8Error("x".into()).message(), "FromUtf8Error: x");
    assert_eq!(CJDicError::ConnectionMutexGuardError("x".into()).message(), "ConnectionMutexGuardError: x");
    assert_eq!(CJDicError::TokenizerMutexGuardError("x".into()).message(), "TokenizerMutexGuardError: x");
    assert_eq!(CJDicError::NotFound.message(), "Not found");
    assert_eq!(CJDicError::Error("x".into()).message(), "Error: x");
    assert_eq!(CJDicError::NotFound.kind(), "NotFound");
    assert_eq!(CJDicError::ZipError("m".into()).kind(), "ZipError");
    assert_eq!(CJDicError::ZipError("m".into()).detail(), Some("m".to_string()));
    assert_eq!(CJDicError::FileNameNotFound.detail(), None);
}

#[test]
fn glossary_encoding_round_trip() {
    let json = "[\"to eat\",{\"type\":\"structured-content\"}]";
    let g = encode_glossary(json).unwrap();
    assert_eq!(g.hash, blake3::hash(json.as_bytes()).to_hex().to_string());
    assert_eq!(g.hash.len(), 64);
    assert_eq!(glossary_hash(json), g.hash);
    assert_ne!(g.blob, json.as_bytes());
    let mut d = GlossaryDecoder::new(&[]).unwrap();
    assert_eq!(d.decode_glossary(&g.blob).unwrap(), json);
}

#[test]
fn glossary_decoding_errors() {
    let mut d = GlossaryDecoder::new(&[]).unwrap();
    assert!(matches!(d.decode_glossary(b"not zstd"), Err(CJDicError::IOError(_))));
    let bad = zstd::encode_all(&[0xffu8, 0xfe, 0x80][..], 3).unwrap();
    assert!(matches!(d.decode_glossary(&bad), Err(CJDicError::FromUtf8Error(_))));
    let big = encode_glossary(&"a".repeat(600 * 1024)).unwrap();
    assert!(matches!(d.decode_glossary(&big.blob), Err(CJDicError::IOError(_))));
    let at_limit = encode_glossary(&"b".repeat(512 * 1024)).unwrap();
    assert_eq!(d.decode_glossary(&at_limit.blob).unwrap().len(), 512 * 1024);
}

#[test]
fn glossary_decoder_takes_raw_content_as_a_dictionary() {
    let mut d = GlossaryDecoder::new(b"any raw content").unwrap();
    assert!(matches!(d.decode_glossary(b"not zstd"), Err(CJDicError::IOError(_))));
}

#[test]
fn glossary_dictionary_training() {
    let samples: Vec<Vec<u8>> = (0..400).map(|i| format!("[\"meaning number {i}\",\"shared words of glossaries\"]").into_bytes()).collect();
    match train_glossary_dictionary(&samples) {
        Ok(dict) => {
            assert!(!dict.is_empty());
            let g = encode_glossary("[\"meaning number 7\",\"shared words of glossaries\"]").unwrap();
            assert!(dict.len() <= 112640);
            let mut d = GlossaryDecoder::new(&dict).unwrap();
            assert_eq!(d.decode_glossary(&g.blob).unwrap(), "[\"meaning number 7\",\"shared words of glossaries\"]");
        }
        Err(e) => assert!(matches!(e, CJDicError::IOError(_))),
    }
    assert!(matches!(train_glossary_dictionary(&vec![]), Err(CJDicError::IOError(_))));
}

#[test]
fn json_rows_and_records() {
    let rows = read_json_rows(r#"[["食べる","たべる"," v1 ","v1",10,["to eat"],5,"  "],["x"],{"a":1}]"#).unwrap();
    assert_eq!(rows.len(), 3);
    let t = term_record(&rows[0]);
    assert_eq!(t.term, "食べる");
    assert_eq!(t.reading, "たべる");
    assert_eq!(t.def_tags.as_deref(), Some("v1"));
    assert_eq!(t.rules.as_deref(), Some("v1"));
    assert_eq!(t.score, 10);
    assert_eq!(t.glossary_json, "[\"to eat\"]");
    assert_eq!(t.sequence, Some(5));
    assert_eq!(t.term_tags, None);
    let short = term_record(&rows[1]);
    assert_eq!(short.term, "x");
    assert_eq!(short.reading, "");
    assert_eq!(short.score, 0);
    assert_eq!(short.glossary_json, "null");
    assert_eq!(short.sequence, None);
    assert!(rows[2].is_empty());
    assert!(matches!(read_json_rows("{\"a\":1}"), Err(CJDicError::Serialization(_))));
    assert!(matches!(read_json_rows("["), Err(CJDicError::Serialization(_))));
}

#[test]
fn meta_and_tag_records() {
    let rows = read_json_rows(r#"[["日","freq",{"reading":"ひ","value":3}],["月","pitch",7]]"#).unwrap();
    let m = term_meta_record(&rows[0]);
    assert_eq!(m.term, "日");
    assert_eq!(m.mode, "freq");
    assert_eq!(m.reading.as_deref(), Some("ひ"));
    assert_eq!(m.data_json, "{\"reading\":\"ひ\",\"value\":3}");
    let m2 = term_meta_record(&rows[1]);
    assert_eq!(m2.reading, None);
    assert_eq!(m2.data_json, "7");
    let tags = read_json_rows(r#"[["n","partOfSpeech",-3,"noun",1],["v"]]"#).unwrap();
    let tg = tag_record(&tags[0]);
    assert_eq!(tg.name, "n");
    assert_eq!(tg.category.as_deref(), Some("partOfSpeech"));
    assert_eq!(tg.sort_order, -3);
    assert_eq!(tg.notes.as_deref(), Some("noun"));
    assert_eq!(tg.score, 1);
    let t2 = tag_record(&tags[1]);
    assert_eq!((t2.category, t2.sort_order, t2.notes, t2.score), (None, 0, None, 0));
}

#[test]
fn index_of_dictionary() {
    let f = read_json_value(r#"{"title":"JMdict [2024-05-01]","revision":"r1","author":"A","format":3}"#).unwrap();
    let idx = dictionary_index(&f);
    assert_eq!(idx.title, "JMdict");
    assert_eq!(idx.revision, "r1");
    assert_eq!(idx.author.as_deref(), Some("A"));
    assert_eq!(idx.url, None);
    assert_eq!(idx.description, None);
    let empty = dictionary_index(&read_json_value("[1,2]").unwrap());
    assert_eq!(empty.title, "");
    assert_eq!(empty.revision, "");
    assert!(matches!(read_json_value("{"), Err(CJDicError::Serialization(_))));
}

#[test]
fn archive_reading() {
    let bytes = zip_of(&[
        ("index.json", r#"{"title":"Test [1]","revision":"2"}"#),
        ("term_bank_1.json", r#"[["a","b","","",1,[],null,""]]"#),
        ("term_bank_2.json", "[]"),
        ("tag_bank_1.json", "not json"),
    ]);
    let mut a = DictionaryArchive::open(bytes).unwrap();
    assert_eq!(a.term_bank_count(), 2);
    match a.read_index().unwrap() {
        IndexRead::Found(idx) => {
            assert_eq!(idx.title, "Test");
            assert_eq!(idx.revision, "2");
        }
        IndexRead::NoDictionary(_) => panic!("index expected"),
    }
    let b1 = a.read_bank(BankKind::Term, 1).unwrap().unwrap();
    assert_eq!(b1.len(), 1);
    assert_eq!(term_record(&b1[0]).term, "a");
    assert_eq!(a.read_bank(BankKind::Term, 2).unwrap().unwrap().len(), 0);
    assert!(a.read_bank(BankKind::Term, 3).unwrap().is_none());
    assert!(a.read_bank(BankKind::TermMeta, 1).unwrap().is_none());
    assert!(matches!(a.read_bank(BankKind::Tag, 1), Err(CJDicError::Serialization(_))));
}

#[test]
fn archive_without_index() {
    let mut a = DictionaryArchive::open(zip_of(&[("readme.txt", "hi")])).unwrap();
    match a.read_index().unwrap() {
        IndexRead::NoDictionary(r) => {
            assert!(!r.exists);
            assert!(!r.load);
            assert!(r.error.is_some());
        }
        IndexRead::Found(_) => panic!("no index expected"),
    }
    assert!(matches!(DictionaryArchive::open(b"no zip".to_vec()), Err(CJDicError::ZipError(_))));
}

#[test]
fn import_results_and_decisions() {
    let r = YomitanZipImportResult::imported();
    assert!(r.exists && r.load && r.error.is_none());
    let s = YomitanZipImportResult::already_installed();
    assert!(s.exists && !s.load && s.error.is_none());
    let m = YomitanZipImportResult::missing_index("gone".into());
    assert_eq!(m.error.as_deref(), Some("gone"));
    assert_eq!(install_decision(None), InstallDecision::Install);
    assert_eq!(install_decision(Some(true)), InstallDecision::Replace);
    assert_eq!(install_decision(Some(false)), InstallDecision::Skip);
}

#[test]
fn split_and_search_text() {
    assert_eq!(split_text("名詞,一般,*", ','), strings(&["名詞", "一般", "*"]));
    assert_eq!(split_text("", ','), strings(&[""]));
    assert_eq!(split_text("a,,b,", ','), strings(&["a", "", "b", ""]));
    let seg = |surface: &str, feature: &str| TokenizeSegment { surface: surface.to_string(), details: split_text(feature, ',') };
    let segs = vec![
        seg("猫", "名詞,一般,*,*,*,*,猫,ネコ,ネコ"),
        seg("が", "助詞,格助詞,一般,*,*,*,が,ガ,ガ"),
        seg("食べ", "動詞,自立,*,*,一段,連用形,食べる,タベ,タベ"),
        seg("た", "助動詞,*,*,*,特殊・タ,基本形,た,タ,タ"),
        seg("XYZ", "名詞,固有名詞"),
        seg("。", "記号,句点,*,*,*,*,。,。,。"),
    ];
    assert_eq!(search_index_text(&segs), "猫 食べる XYZ");
    assert_eq!(search_index_text(&vec![]), "");
}

#[test]
fn tokenizer_dictionary_errors() {
    assert!(matches!(JaTokenizer::from_compressed_dictionary(b"plain"), Err(CJDicError::VibratoError(_))));
    assert!(matches!(JaTokenizer::from_compressed_dictionary(b""), Err(CJDicError::VibratoError(_))));
    let z = zstd::encode_all(&b"not a dictionary"[..], 3).unwrap();
    assert!(matches!(JaTokenizer::from_compressed_dictionary(&z), Err(CJDicError::VibratoError(_))));
}

#[test]
fn database_layout() {
    assert_eq!(USER_DBFILE, "user.db");
    assert_eq!(db_file(DbChild::Yomitan), "yomitan.db");
    assert_eq!(db_file(DbChild::YomitanGlossary), "yomitan-glossary.db");
    assert_eq!(db_file(DbChild::Search), "search.db");
    assert_eq!(db_schema(DbChild::YomitanGlossary), "glossary");
    assert_eq!(attach_uri("C:\\data\\yomitan.db", true), "file:C:/data/yomitan.db?mode=ro&immutable=1");
    assert_eq!(attach_uri("/data/search.db", false), "file:/data/search.db");
    assert!(is_attached_read_only(DbChild::Yomitan));
    assert!(!is_attached_read_only(DbChild::Search));
    assert_eq!(attach_statement(DbChild::Search), "ATTACH DATABASE ?1 AS search");
    assert_eq!(mmap_statement(DbChild::Yomitan), "\n                PRAGMA yomitan.mmap_size = 3000000000; -- 3_000_000_000\n                ");
}

#[test]
fn attach_state_marks_once() {
    let mut s = AttachState::new();
    assert!(!s.is_attached(DbChild::Search));
    s.mark_attached(DbChild::Search);
    let once = s;
    s.mark_attached(DbChild::Search);
    assert_eq!(s, once);
    assert!(s.is_attached(DbChild::Search));
    assert!(!s.is_attached(DbChild::Yomitan));
}

#[test]
fn schema_plans() {
    assert_eq!(schema_plan(None), SchemaPlan { migrate_glossary: false, record_version: false, record_creation: true });
    assert_eq!(schema_plan(Some("1")), SchemaPlan { migrate_glossary: true, record_version: true, record_creation: false });
    assert_eq!(schema_plan(Some("2025-01-01")), SchemaPlan { migrate_glossary: false, record_version: true, record_creation: false });
    assert_eq!(schema_plan(Some("2026-03-08")), SchemaPlan { migrate_glossary: false, record_version: false, record_creation: false });
}

#[test]
fn download_rules() {
    assert_eq!(range_header(0), None);
    assert_eq!(range_header(1024).as_deref(), Some("bytes=1024-"));
    assert!(check_download_complete(0, 0).is_ok());
    assert!(check_download_complete(10, 10).is_ok());
    assert!(check_download_complete(10, 12).is_ok());
    assert_eq!(
        check_download_complete(10, 4),
        Err(CJDicError::Error("Incomplete download: expected 10 bytes, got 4".into()))
    );
    assert_eq!(partial_file_name("yomitan/ja/jmdict.zip"), "yomitan/ja/jmdict.zip.dl-tmp");
}

#[test]
fn timer_reports_its_label() {
    let t = Timer::new("import".to_string());
    assert_eq!(t.label_text(), "import");
    assert!(t.report().starts_with("[import] "));
}

#[test]
fn intern_cache_gives_back_what_was_recorded() {
    let mut c = InternCache::new();
    assert_eq!(c.get("n"), None);
    c.insert("n", 7);
    c.insert("v", 9);
    assert_eq!(c.get("n"), Some(7));
    assert_eq!(c.get("v"), Some(9));
    c.insert("n", 11);
    assert_eq!(c.get("n"), Some(11));
    assert_eq!(c.get("v"), Some(9));
    assert_eq!(c.get("x"), None);
}

#[test]
fn setup_downloads_only_missing_or_broken_archives() {
    assert!(needs_download(false, false));
    assert!(needs_download(true, false));
    assert!(!needs_download(true, true));
}

#[test]
fn setup_asks_for_a_restart_only_after_changes() {
    let mut p = SetupProgress::new();
    assert!(!p.restart_requested());
    p.directory_planned(0, 0);
    assert!(!p.restart_requested());
    p.directory_planned(2, 1);
    assert_eq!(p.updates, 3);
    p.import_reported();
    assert_eq!(p.updates, 4);
    assert!(p.restart_requested());
}

#[test]
fn import_progress_counts_entries_and_stages() {
    let mut p = ImportSteps::new();
    let o = p.opening("jmdict.zip");
    assert_eq!((o.message.as_str(), o.current, o.total, o.steps), ("Opening jmdict.zip", 0, 0, 0));
    let b = p.term_bank_read(1, 3, 250);
    assert_eq!((b.message.as_str(), b.current, b.total, b.steps), ("Reading term banks", 1, 3, 250));
    let b2 = p.term_bank_read(2, 3, 10);
    assert_eq!(b2.steps, 260);
    let st = p.stage("Reading tag banks");
    assert_eq!((st.message.as_str(), st.current, st.total, st.steps), ("Reading tag banks", 0, 0, 261));
}

#[test]
fn sync_orders_tagged_archives_by_the_rest_of_their_name() {
    let r = plan_dictionary_sync(&strings(&["[x] b.zip", "a.zip"]), &vec![]);
    assert_eq!(r.new_dicts, strings(&["a.zip", "[x] b.zip"]));
    assert!(r.to_be_removed_dicts.is_empty());
}
