use sqrwallet::keyfile::{load_keypair, load_pubkey, my_address};
use sqrwallet::wallet::{
    backup_path, draw_seed, drawn_seed, key_path, recovery_phrase, save_step, save_wallet_from_seed,
    seed_from_phrase, session_token_path, wallet_dir, PhraseError, SaveAction, SaveEvent,
    SavePhase,
};

fn home(s: &str) -> Option<String> {
    Some(s.to_string())
}

#[test]
fn the_wallet_lies_below_home() {
    assert_eq!(wallet_dir(&home("/home/u")), "/home/u/.sequora-wallet");
    assert_eq!(key_path(&home("/home/u")), "/home/u/.sequora-wallet/key.json");
    assert_eq!(key_path(&home("/home/u/")), "/home/u/.sequora-wallet/key.json");
    assert_eq!(key_path(&home("/")), "/.sequora-wallet/key.json");
    assert_eq!(key_path(&home("")), ".sequora-wallet/key.json");
    assert_eq!(key_path(&None), "./.sequora-wallet/key.json");
}

#[test]
fn paths_are_those_of_std() {
    for h in ["/home/u", "/home/u/", "/", "", ".", "a//b//"] {
        let dir = std::path::PathBuf::from(h).join(".sequora-wallet");
        let key = dir.join("key.json");
        assert_eq!(key_path(&home(h)), key.to_str().unwrap());
        assert_eq!(session_token_path(&home(h)), key.parent().unwrap().join(".session_token").to_str().unwrap());
        assert_eq!(backup_path(&home(h), 17, 0), key.with_extension("json.17.bak").to_str().unwrap());
    }
}

#[test]
fn the_token_lies_beside_the_key() {
    assert_eq!(session_token_path(&home("/h")), "/h/.sequora-wallet/.session_token");
    assert_ne!(session_token_path(&None), key_path(&None));
}

#[test]
fn backups_lie_apart() {
    assert_eq!(backup_path(&home("/h"), 0, 0), "/h/.sequora-wallet/key.json.0.bak");
    assert_eq!(backup_path(&home("/h"), 1700000000, 0), "/h/.sequora-wallet/key.json.1700000000.bak");
    assert_eq!(backup_path(&home("/h"), 1700000000, 12), "/h/.sequora-wallet/key.json.1700000000.12.bak");
    let mut seen = std::collections::HashSet::new();
    for time in [0u64, 1, 10, 11, 101, 110] {
        for n in [0u64, 1, 2, 10, 11] {
            assert!(seen.insert(backup_path(&None, time, n)));
        }
    }
    assert!(!seen.contains(&key_path(&None)));
}

#[test]
fn writes_the_recovery_phrase_of_a_seed() {
    let mut words = "abandon ".repeat(23);
    words.push_str("art");
    assert_eq!(recovery_phrase(&[0u8; 32]), words);
    let mut words = "zoo ".repeat(23);
    words.push_str("vote");
    assert_eq!(recovery_phrase(&[0xff; 32]), words);
}

#[test]
fn reads_the_seed_of_a_recovery_phrase() {
    let phrase = recovery_phrase(&[0x7f; 32]);
    assert_eq!(seed_from_phrase(&phrase), Ok([0x7f; 32]));
    assert_eq!(seed_from_phrase(&format!(" \n{phrase}\t ")), Ok([0x7f; 32]));
}

#[test]
fn refuses_phrases_that_are_none() {
    assert_eq!(seed_from_phrase(""), Err(PhraseError::Invalid));
    assert_eq!(seed_from_phrase("abandon"), Err(PhraseError::Invalid));
    assert_eq!(seed_from_phrase(&"abandon ".repeat(24)), Err(PhraseError::Invalid));
    let swapped = recovery_phrase(&[0u8; 32]).replace("art", "arr");
    assert_eq!(seed_from_phrase(&swapped), Err(PhraseError::Invalid));
}

#[test]
fn refuses_phrases_of_another_length() {
    let mut words = "abandon ".repeat(11);
    words.push_str("about");
    assert_eq!(seed_from_phrase(&words), Err(PhraseError::WrongLength));
}

#[test]
fn drawn_bytes_are_the_seed() {
    let new = drawn_seed(Some(vec![0u8; 32])).unwrap();
    assert_eq!(new.seed, [0u8; 32]);
    assert_eq!(new.phrase, format!("{}art", "abandon ".repeat(23)));
    assert!(drawn_seed(None).is_none());
}

#[test]
fn a_drawn_seed_comes_back_from_its_phrase() {
    let new = draw_seed().unwrap();
    assert_eq!(new.phrase.split(' ').count(), 24);
    assert_eq!(seed_from_phrase(&new.phrase), Ok(new.seed));
    assert_ne!(draw_seed().unwrap().seed, new.seed);
}

#[test]
fn a_saved_wallet_opens_and_a_restored_one_is_the_same() {
    let new = draw_seed().unwrap();
    let saved = save_wallet_from_seed(&new.seed, "one").ok().unwrap();
    let seed = seed_from_phrase(&new.phrase).unwrap();
    let restored = save_wallet_from_seed(&seed, "two").ok().unwrap();
    assert_eq!(saved.address, restored.address);
    assert_ne!(saved.data, restored.data);
    let (saved, restored) = (Some(saved.data), Some(restored.data));
    assert_eq!(load_pubkey(&saved), load_pubkey(&restored));
    assert_eq!(my_address(&saved), my_address(&restored));
    assert!(load_keypair(&saved, "one").is_ok());
    assert!(load_keypair(&saved, "two").is_err());
    assert!(load_keypair(&restored, "two").is_ok());
}

#[test]
fn salt_and_nonce_are_fresh() {
    let a = save_wallet_from_seed(&[1; 32], "pw").ok().unwrap().data;
    let b = save_wallet_from_seed(&[1; 32], "pw").ok().unwrap().data;
    let a: serde_json::Value = serde_json::from_str(&a).unwrap();
    let b: serde_json::Value = serde_json::from_str(&b).unwrap();
    assert_eq!(a["enc"]["salt"].as_str().unwrap().len(), 32);
    assert_eq!(a["enc"]["nonce"].as_str().unwrap().len(), 24);
    assert_eq!(a["enc"]["seed_ciphertext"].as_str().unwrap().len(), 96);
    assert_ne!(a["enc"]["salt"], b["enc"]["salt"]);
    assert_ne!(a["enc"]["nonce"], b["enc"]["nonce"]);
    assert_ne!(a["enc"]["seed_ciphertext"], b["enc"]["seed_ciphertext"]);
    assert_eq!(a["pubkey"], b["pubkey"]);
}

#[test]
fn a_first_wallet_is_written_at_once() {
    let h = home("/h");
    let (phase, action) = save_step(SavePhase::Start, &SaveEvent::Begin, &h);
    assert!(matches!(action, SaveAction::Look));
    let (phase, action) = save_step(phase, &SaveEvent::Absent, &h);
    assert!(matches!(action, SaveAction::Write));
    let (phase, action) = save_step(phase, &SaveEvent::Written, &h);
    assert!(matches!(action, SaveAction::Report));
    assert_eq!(phase, SavePhase::Done);
}

fn told((phase, action): (SavePhase, SaveAction)) -> (SavePhase, String) {
    match action {
        SaveAction::BackUp { to } => (phase, to),
        _ => panic!("no backup"),
    }
}

#[test]
fn a_wallet_that_is_there_is_copied_first() {
    let h = home("/h");
    let (phase, _) = save_step(SavePhase::Start, &SaveEvent::Begin, &h);
    let (phase, to) = told(save_step(phase, &SaveEvent::Present { time: 99 }, &h));
    assert_eq!(to, "/h/.sequora-wallet/key.json.99.bak");
    let (phase, action) = save_step(phase, &SaveEvent::BackedUp, &h);
    assert!(matches!(action, SaveAction::Write));
    assert_eq!(phase, SavePhase::Writing);
}

// Saves over a key file, on a disk that is a map from paths to contents.
fn save_over(disk: &mut std::collections::HashMap<String, String>, time: u64, new: &str) {
    let h = home("/h");
    let key = key_path(&h);
    let (mut phase, mut action) = save_step(SavePhase::Start, &SaveEvent::Begin, &h);
    loop {
        let event = match action {
            SaveAction::Look if disk.contains_key(&key) => SaveEvent::Present { time },
            SaveAction::Look => SaveEvent::Absent,
            SaveAction::BackUp { to } if disk.contains_key(&to) => SaveEvent::BackupTaken,
            SaveAction::BackUp { to } => {
                let copy = disk[&key].clone();
                disk.insert(to, copy);
                SaveEvent::BackedUp
            }
            SaveAction::Write => {
                disk.insert(key.clone(), new.to_string());
                SaveEvent::Written
            }
            SaveAction::Report => return,
            SaveAction::Refuse { message } => panic!("{message}"),
        };
        (phase, action) = save_step(phase, &event, &h);
    }
}

#[test]
fn saves_in_one_second_keep_every_wallet() {
    for time in [0u64, 1700000000] {
        let mut disk = std::collections::HashMap::new();
        for wallet in ["A", "B", "C", "D"] {
            save_over(&mut disk, time, wallet);
        }
        assert_eq!(disk.len(), 4);
        let dir = "/h/.sequora-wallet/";
        assert_eq!(disk[&format!("{dir}key.json.{time}.bak")], "A");
        assert_eq!(disk[&format!("{dir}key.json.{time}.1.bak")], "B");
        assert_eq!(disk[&format!("{dir}key.json.{time}.2.bak")], "C");
        assert_eq!(disk[&format!("{dir}key.json")], "D");
    }
}

#[test]
fn a_path_that_is_taken_is_not_named_again() {
    let mut seen = std::collections::HashSet::new();
    let (mut phase, mut to) = told(save_step(SavePhase::Looking, &SaveEvent::Present { time: 5 }, &None));
    for _ in 0..100 {
        assert!(seen.insert(to));
        (phase, to) = told(save_step(phase, &SaveEvent::BackupTaken, &None));
    }
    assert_eq!(phase, SavePhase::BackingUp { time: 5, n: 100 });
    let last = SavePhase::BackingUp { time: 5, n: u64::MAX };
    let (phase, action) = save_step(last, &SaveEvent::BackupTaken, &home("/h"));
    assert_eq!(phase, SavePhase::Refused);
    match action {
        SaveAction::Refuse { message } => assert_eq!(
            message,
            "refusing to overwrite existing wallet: backup to /h/.sequora-wallet/key.json.5.18446744073709551615.bak failed: there is a file already"
        ),
        _ => panic!("not refused"),
    }
}

#[test]
fn a_copy_that_fails_ends_the_writing() {
    let failed = SaveEvent::BackupFailed { error: "disk full".to_string() };
    let (phase, action) = save_step(SavePhase::BackingUp { time: 7, n: 1 }, &failed, &home("/h"));
    match action {
        SaveAction::Refuse { message } => assert_eq!(
            message,
            "refusing to overwrite existing wallet: backup to /h/.sequora-wallet/key.json.7.1.bak failed: disk full"
        ),
        _ => panic!("not refused"),
    }
    assert_eq!(phase, SavePhase::Refused);
    for event in [SaveEvent::Begin, SaveEvent::Absent, SaveEvent::BackedUp, SaveEvent::BackupTaken, SaveEvent::Written] {
        let (next, action) = save_step(phase, &event, &None);
        assert_eq!(next, SavePhase::Refused);
        assert!(matches!(action, SaveAction::Refuse { .. }));
    }
}
