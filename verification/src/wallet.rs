//! The wallet on disk: where it lies, how a new one comes about, and in which order it is
//! written.
use vstd::prelude::*;

use crate::address;
use crate::crypto;
use crate::crypto::KdfError;
use crate::keyfile;
use crate::keyfile::SealedWallet;
use crate::text;

verus! {

/// The path of `name` below `dir`: a slash parts the two, unless `dir` is empty or ends in one.
pub open spec fn joined(dir: Seq<char>, name: Seq<char>) -> Seq<char> {
    if dir.len() == 0 || dir.last() == '/' {
        dir + name
    } else {
        dir + "/"@ + name
    }
}

/// The directory that the wallet lies in: below the home directory, or below the current one
/// where there is none.
pub open spec fn wallet_dir_of(home: Option<Seq<char>>) -> Seq<char> {
    match home {
        Some(home) => joined(home, ".sequora-wallet"@),
        None => joined("."@, ".sequora-wallet"@),
    }
}

/// The path of the key file.
pub open spec fn key_path_of(home: Option<Seq<char>>) -> Seq<char> {
    wallet_dir_of(home) + "/key.json"@
}

/// The path of the file that keeps the session token.
pub open spec fn session_token_path_of(home: Option<Seq<char>>) -> Seq<char> {
    wallet_dir_of(home) + "/.session_token"@
}

/// The directory that the wallet lies in.
pub fn wallet_dir(home: &Option<String>) -> (r: String)
    ensures
        r@ == wallet_dir_of(text::opt_view(*home)),
{
    let base = match home {
        Some(home) => home.as_str(),
        None => ".",
    };
    let chars = text::chars_of(base);
    let mut path = base.to_owned();
    if chars.len() > 0 && chars[chars.len() - 1] != '/' {
        path.append("/");
    }
    path.append(".sequora-wallet");
    path
}

/// The path of the key file.
pub fn key_path(home: &Option<String>) -> (r: String)
    ensures
        r@ == key_path_of(text::opt_view(*home)),
{
    let mut path = wallet_dir(home);
    path.append("/key.json");
    path
}

/// The path of the file that keeps the session token.
pub fn session_token_path(home: &Option<String>) -> (r: String)
    ensures
        r@ == session_token_path_of(text::opt_view(*home)),
{
    let mut path = wallet_dir(home);
    path.append("/.session_token");
    path
}

/// The session token is kept beside the key file, never in its place.
pub proof fn law_token_beside_key(home: Option<Seq<char>>)
    ensures
        text::begins_with(key_path_of(home), wallet_dir_of(home)),
        text::begins_with(session_token_path_of(home), wallet_dir_of(home)),
        key_path_of(home) != session_token_path_of(home),
{
    reveal_strlit("/key.json");
    reveal_strlit("/.session_token");
    let dir = wallet_dir_of(home);
    assert(key_path_of(home).take(dir.len() as int) =~= dir);
    assert(session_token_path_of(home).take(dir.len() as int) =~= dir);
    assert(key_path_of(home).len() == dir.len() + 9);
    assert(session_token_path_of(home).len() == dir.len() + 15);
}

/// What tells a backup from others: the second it was made in, counted from 1970, and, from the
/// second one of that second on, its number.
pub open spec fn backup_stamp(time: nat, n: nat) -> Seq<char> {
    if n == 0 {
        text::decimal(time)
    } else {
        text::decimal(time) + seq!['.'] + text::decimal(n)
    }
}

/// The path that a key file is copied to before it is written over, `time` seconds after 1970,
/// where `n` other paths of that second were taken.
pub open spec fn backup_path_of(home: Option<Seq<char>>, time: nat, n: nat) -> Seq<char> {
    key_path_of(home) + "."@ + backup_stamp(time, n) + ".bak"@
}

/// The path that the key file is copied to before it is written over.
pub fn backup_path(home: &Option<String>, time: u64, n: u64) -> (r: String)
    ensures
        r@ == backup_path_of(text::opt_view(*home), time as nat, n as nat),
{
    let mut path = key_path(home);
    path.append(".");
    let mut stamp = text::decimal_text(time);
    if n > 0 {
        stamp.push('.');
        stamp.append(text::decimal_text(n).as_str());
    }
    assert(stamp@ =~= backup_stamp(time as nat, n as nat));
    path.append(stamp.as_str());
    path.append(".bak");
    path
}

/// A stamp begins with the digits of its second, which end where it ends or at a point.
proof fn lemma_backup_stamp(time: nat, n: nat)
    ensures
        ({
            let (d, s) = (text::decimal(time), backup_stamp(time, n));
            &&& 0 < d.len() <= s.len()
            &&& s.take(d.len() as int) == d
            &&& text::all_digits(d)
            &&& n == 0 ==> s.len() == d.len()
            &&& n > 0 ==> s.len() > d.len() + 1 && s[d.len() as int] == '.' && s.skip(
                (d.len() + 1) as int,
            ) == text::decimal(n)
        }),
{
    text::lemma_decimal(time);
    text::lemma_decimal(n);
    let (d, s) = (text::decimal(time), backup_stamp(time, n));
    assert(s.take(d.len() as int) =~= d);
    if n > 0 {
        assert(s.skip((d.len() + 1) as int) =~= text::decimal(n));
    }
}

/// Stamps are the same only if second and number are.
proof fn lemma_backup_stamps_apart(time1: nat, n1: nat, time2: nat, n2: nat)
    requires
        backup_stamp(time1, n1) == backup_stamp(time2, n2),
    ensures
        time1 == time2,
        n1 == n2,
{
    lemma_backup_stamp(time1, n1);
    lemma_backup_stamp(time2, n2);
    let s = backup_stamp(time1, n1);
    let (d1, d2) = (text::decimal(time1), text::decimal(time2));
    if d1.len() < d2.len() {
        assert(s[d1.len() as int] == d2[d1.len() as int]);
        assert(text::is_digit(d2[d1.len() as int]));
    }
    if d2.len() < d1.len() {
        assert(s[d2.len() as int] == d1[d2.len() as int]);
        assert(text::is_digit(d1[d2.len() as int]));
    }
    text::lemma_decimal(time1);
    text::lemma_decimal(time2);
    text::lemma_decimal(n1);
    text::lemma_decimal(n2);
}

/// A backup never lies in the place of the key file, and every backup has a path of its own: two
/// paths are the same only if they are of the same second and have the same number in it.
pub proof fn law_backups_apart(home: Option<Seq<char>>, time1: nat, n1: nat, time2: nat, n2: nat)
    ensures
        backup_path_of(home, time1, n1) != key_path_of(home),
        backup_path_of(home, time1, n1) == backup_path_of(home, time2, n2) ==> time1 == time2 && n1
            == n2,
{
    reveal_strlit(".");
    reveal_strlit(".bak");
    let (s1, s2) = (backup_stamp(time1, n1), backup_stamp(time2, n2));
    let (b1, b2) = (backup_path_of(home, time1, n1), backup_path_of(home, time2, n2));
    let at = key_path_of(home).len() as int + 1;
    assert(b1.len() == at + s1.len() + 4);
    assert(b2.len() == at + s2.len() + 4);
    assert(b1.subrange(at, at + s1.len()) =~= s1);
    assert(b2.subrange(at, at + s2.len()) =~= s2);
    if b1 == b2 {
        lemma_backup_stamps_apart(time1, n1, time2, n2);
    }
}

/// Why a recovery phrase gives no seed.
#[derive(Clone, Copy, Debug, PartialEq, Eq, Structural)]
pub enum PhraseError {
    /// The words, their number or their order are wrong.
    Invalid,
    /// The phrase is sound, but is not one of 24 words.
    WrongLength,
}

/// The seed that entropy is, if there is any and it has the length of a seed.
pub open spec fn seed_in(entropy: Option<Seq<u8>>) -> Result<Seq<u8>, PhraseError> {
    match entropy {
        None => Err(PhraseError::Invalid),
        Some(entropy) => if entropy.len() != crypto::SEED_LEN {
            Err(PhraseError::WrongLength)
        } else {
            Ok(entropy)
        },
    }
}

/// The seed that a recovery phrase stands for, white space around it aside.
pub open spec fn seed_of_phrase(phrase: Seq<char>) -> Result<Seq<u8>, PhraseError> {
    seed_in(crypto::mnemonic_entropy(text::trimmed(phrase)))
}

/// The seed that entropy is, if there is any and it has the length of a seed. The entropy is
/// scrubbed before this returns.
pub fn seed_from_entropy(entropy: Option<Vec<u8>>) -> (r: Result<[u8; 32], PhraseError>)
    ensures
        ({
            let entropy = match entropy {
                Some(b) => Some(b@),
                None => None,
            };
            match r {
                Ok(seed) => seed_in(entropy) == Ok::<Seq<u8>, PhraseError>(seed@),
                Err(e) => seed_in(entropy) == Err::<Seq<u8>, PhraseError>(e),
            }
        }),
{
    match entropy {
        None => Err(PhraseError::Invalid),
        Some(entropy) => {
            let mut entropy = entropy;
            let r = if entropy.len() != crypto::SEED_LEN {
                Err(PhraseError::WrongLength)
            } else {
                Ok(keyfile::seed_array(entropy.as_slice()))
            };
            crypto::scrub_bytes(&mut entropy);
            r
        },
    }
}

/// The seed that a recovery phrase stands for, white space around it aside.
pub fn seed_from_phrase(phrase: &str) -> (r: Result<[u8; 32], PhraseError>)
    ensures
        match r {
            Ok(seed) => seed_of_phrase(phrase@) == Ok::<Seq<u8>, PhraseError>(seed@),
            Err(e) => seed_of_phrase(phrase@) == Err::<Seq<u8>, PhraseError>(e),
        },
{
    let mut trimmed = text::trim(phrase);
    let entropy = crypto::mnemonic_to_entropy(trimmed.as_str());
    crypto::scrub_text(&mut trimmed);
    seed_from_entropy(entropy)
}

/// Whether a text is the recovery phrase of a seed, with no white space around it, and stands
/// for the seed.
pub open spec fn is_phrase_of(phrase: Seq<char>, seed: Seq<u8>) -> bool {
    &&& crypto::mnemonic_phrase(seed) == Some(phrase)
    &&& phrase.len() > 0
    &&& text::trimmed(phrase) == phrase
    &&& seed_of_phrase(phrase) == Ok::<Seq<u8>, PhraseError>(seed)
}

/// The recovery phrase of a seed, 24 words. It stands for the seed.
pub fn recovery_phrase(seed: &[u8; 32]) -> (r: String)
    ensures
        is_phrase_of(r@, seed@),
{
    let phrase = crypto::mnemonic_from_entropy(seed.as_slice());
    assert(phrase is Some);
    let phrase = phrase.unwrap();
    proof {
        text::lemma_trimmed_unchanged(phrase@);
    }
    phrase
}

/// A fresh seed with its recovery phrase.
pub struct NewSeed {
    /// The seed.
    pub seed: [u8; 32],
    /// The recovery phrase, 24 words.
    pub phrase: String,
}

/// The seed that 32 drawn bytes are, with the phrase that stands for it; none where none were
/// drawn. The bytes are scrubbed before this returns.
pub fn drawn_seed(drawn: Option<Vec<u8>>) -> (r: Option<NewSeed>)
    requires
        drawn matches Some(bytes) ==> bytes@.len() == crypto::SEED_LEN,
    ensures
        match drawn {
            Some(bytes) => r matches Some(new) && new.seed@ == bytes@ && is_phrase_of(
                new.phrase@,
                bytes@,
            ),
            None => r is None,
        },
{
    match drawn {
        None => None,
        Some(bytes) => {
            let mut bytes = bytes;
            let seed = keyfile::seed_array(bytes.as_slice());
            crypto::scrub_bytes(&mut bytes);
            let phrase = recovery_phrase(&seed);
            Some(NewSeed { seed, phrase })
        },
    }
}

/// Draws a seed; the phrase that comes with it stands for it. `None` where the system has no
/// randomness.
pub fn draw_seed() -> (r: Option<NewSeed>)
    ensures
        r matches Some(new) ==> is_phrase_of(new.phrase@, new.seed@),
{
    drawn_seed(crypto::rand_bytes(crypto::SEED_LEN))
}

/// Why a wallet was not sealed.
#[derive(Clone, Copy, Debug, PartialEq, Eq, Structural)]
pub enum SaveError {
    /// The system has no randomness.
    NoRandomness,
    /// The password cannot be used.
    Kdf(KdfError),
}

/// Whether a sealed wallet is one of a seed and a password, with some salt and some nonce.
pub open spec fn is_sealed(w: SealedWallet, seed: Seq<u8>, password: Seq<char>) -> bool {
    &&& exists|salt: Seq<u8>, nonce: Seq<u8>|
        {
            &&& salt.len() == keyfile::SALT_LEN
            &&& nonce.len() == crypto::NONCE_LEN
            &&& #[trigger] keyfile::new_key_file(seed, password, salt, nonce) == Ok::<
                Seq<char>,
                KdfError,
            >(w.data@)
            &&& keyfile::reads_back(w.data@, seed, password, salt, nonce)
            &&& keyfile::holds_seed(seed, password, salt, nonce)
        }
    &&& w.address@ == address::address_of(crypto::ml_dsa_keys(seed).0)
    &&& keyfile::gives_back(w.data@, password, seed)
}

/// Seals a seed under a password into a key file, with a fresh salt and a fresh nonce. The file
/// opens with the same password to the keys of the seed. A password that Argon2 does not take
/// is refused; nothing else is, where the system has randomness.
pub fn save_wallet_from_seed(seed: &[u8; 32], password: &str) -> (r: Result<
    SealedWallet,
    SaveError,
>)
    ensures
        match r {
            Ok(w) => is_sealed(w, seed@, password@),
            Err(SaveError::Kdf(e)) => forall|salt: Seq<u8>|
                salt.len() == keyfile::SALT_LEN ==> #[trigger] keyfile::new_key(password@, salt)
                    == Err::<Seq<u8>, KdfError>(e),
            Err(SaveError::NoRandomness) => true,
        },
{
    let (salt, nonce) = match (
        crypto::rand_bytes(keyfile::SALT_LEN),
        crypto::rand_bytes(crypto::NONCE_LEN),
    ) {
        (Some(salt), Some(nonce)) => (salt, nonce),
        _ => {
            return Err(SaveError::NoRandomness);
        },
    };
    match keyfile::seal_wallet(seed, password, salt.as_slice(), nonce.as_slice()) {
        Ok(w) => Ok(w),
        Err(e) => Err(SaveError::Kdf(e)),
    }
}

/// After a wallet was saved, the password that it was saved under is the right one, and any other
/// is right if and only if the key that it gives opens the ciphertext to a seed with the same
/// public key.
pub proof fn law_password_check(
    w: SealedWallet,
    seed: Seq<u8>,
    password: Seq<char>,
    other: Seq<char>,
)
    requires
        is_sealed(w, seed, password),
    ensures
        keyfile::is_password(Some(w.data@), password),
        exists|salt: Seq<u8>, nonce: Seq<u8>|
            {
                &&& #[trigger] keyfile::new_key_file(seed, password, salt, nonce) == Ok::<
                    Seq<char>,
                    KdfError,
                >(w.data@)
                &&& keyfile::is_password(Some(w.data@), other) == keyfile::also_opens(
                    other,
                    seed,
                    password,
                    salt,
                    nonce,
                )
            },
{
    let (salt, nonce) = choose|salt: Seq<u8>, nonce: Seq<u8>|
        {
            &&& salt.len() == keyfile::SALT_LEN
            &&& nonce.len() == crypto::NONCE_LEN
            &&& #[trigger] keyfile::new_key_file(seed, password, salt, nonce) == Ok::<
                Seq<char>,
                KdfError,
            >(w.data@)
            &&& keyfile::reads_back(w.data@, seed, password, salt, nonce)
            &&& keyfile::holds_seed(seed, password, salt, nonce)
        };
    keyfile::law_right_passwords(w.data@, seed, password, salt, nonce, other);
}

/// How far the writing of a wallet has come.
#[derive(Clone, Copy, Debug, PartialEq, Eq, Structural)]
pub enum SavePhase {
    /// Nothing has been done.
    Start,
    /// It is being looked whether there is a key file.
    Looking,
    /// The key file that is there is being copied, in the second `time`, after `n` paths of that
    /// second were found taken.
    BackingUp { time: u64, n: u64 },
    /// The new key file is being written.
    Writing,
    /// The new key file is there.
    Done,
    /// The writing was given up, and nothing was written over.
    Refused,
}

/// What happened since the last step.
pub enum SaveEvent {
    /// The writing is to begin.
    Begin,
    /// There is no key file.
    Absent,
    /// There is a key file; `time` is the present, in seconds since 1970.
    Present { time: u64 },
    /// The key file was copied.
    BackedUp,
    /// There is a file already where the key file was to be copied; nothing was copied.
    BackupTaken,
    /// The key file could not be copied.
    BackupFailed { error: String },
    /// The new key file was written.
    Written,
}

/// What is to be done next.
pub enum SaveAction {
    /// Look whether there is a key file.
    Look,
    /// Copy the key file to a path where there is no file yet.
    BackUp { to: String },
    /// Write the new key file.
    Write,
    /// Report that the wallet was saved.
    Report,
    /// Report that the wallet was not saved, and why.
    Refuse { message: String },
}

/// The phase that follows a phase on an event. An event that does not belong to the phase gives
/// the writing up.
pub open spec fn next_phase(phase: SavePhase, event: SaveEvent) -> SavePhase {
    match (phase, event) {
        (SavePhase::Start, SaveEvent::Begin) => SavePhase::Looking,
        (SavePhase::Looking, SaveEvent::Absent) => SavePhase::Writing,
        (SavePhase::Looking, SaveEvent::Present { time }) => SavePhase::BackingUp { time, n: 0 },
        (SavePhase::BackingUp { time, n }, SaveEvent::BackupTaken) => if n < u64::MAX {
            SavePhase::BackingUp { time, n: (n + 1) as u64 }
        } else {
            SavePhase::Refused
        },
        (SavePhase::BackingUp { .. }, SaveEvent::BackedUp) => SavePhase::Writing,
        (SavePhase::Writing, SaveEvent::Written) => SavePhase::Done,
        _ => SavePhase::Refused,
    }
}

/// Why a wallet that is there is not written over.
pub open spec fn backup_refusal(to: Seq<char>, error: Seq<char>) -> Seq<char> {
    "refusing to overwrite existing wallet: backup to "@ + to + " failed: "@ + error
}

/// Whether an action is the one to take on an event that leads to a phase.
pub open spec fn is_action(
    phase: SavePhase,
    event: SaveEvent,
    home: Option<Seq<char>>,
    action: SaveAction,
) -> bool {
    match next_phase(phase, event) {
        SavePhase::Looking => action is Look,
        SavePhase::BackingUp { time, n } => action matches SaveAction::BackUp { to } && to@
            == backup_path_of(home, time as nat, n as nat),
        SavePhase::Writing => action is Write,
        SavePhase::Done => action is Report,
        _ => action matches SaveAction::Refuse { message } && match (phase, event) {
            (SavePhase::BackingUp { time, n }, SaveEvent::BackupFailed { error }) => message@
                == backup_refusal(backup_path_of(home, time as nat, n as nat), error@),
            (SavePhase::BackingUp { time, n }, SaveEvent::BackupTaken) => message@
                == backup_refusal(
                backup_path_of(home, time as nat, n as nat),
                "there is a file already"@,
            ),
            _ => message@ == "unexpected event"@,
        },
    }
}

/// Says why a wallet that is there is not written over.
fn refuse(to: &str, error: &str) -> (r: (SavePhase, SaveAction))
    ensures
        r.0 is Refused,
        r.1 matches SaveAction::Refuse { message } && message@ == backup_refusal(to@, error@),
{
    let mut message = "refusing to overwrite existing wallet: backup to ".to_owned();
    message.append(to);
    message.append(" failed: ");
    message.append(error);
    (SavePhase::Refused, SaveAction::Refuse { message })
}

/// One step of writing a wallet: the phase that follows and what is to be done in it. A path that
/// the key file is to be copied to is none that was found taken, nor the key file's own.
pub fn save_step(phase: SavePhase, event: &SaveEvent, home: &Option<String>) -> (r: (
    SavePhase,
    SaveAction,
))
    ensures
        r.0 == next_phase(phase, *event),
        is_action(phase, *event, text::opt_view(*home), r.1),
        r.1 matches SaveAction::BackUp { to } ==> {
            let home = text::opt_view(*home);
            &&& to@ != key_path_of(home)
            &&& phase matches SavePhase::BackingUp { time, n } ==> forall|m: nat|
                m <= n ==> to@ != #[trigger] backup_path_of(home, time as nat, m)
        },
{
    let ghost h = text::opt_view(*home);
    match (phase, event) {
        (SavePhase::Start, SaveEvent::Begin) => (SavePhase::Looking, SaveAction::Look),
        (SavePhase::Looking, SaveEvent::Absent) => (SavePhase::Writing, SaveAction::Write),
        (SavePhase::Looking, SaveEvent::Present { time }) => {
            proof {
                law_backups_apart(h, *time as nat, 0, 0, 0);
            }
            let to = backup_path(home, *time, 0);
            (SavePhase::BackingUp { time: *time, n: 0 }, SaveAction::BackUp { to })
        },
        (SavePhase::BackingUp { time, n }, SaveEvent::BackupTaken) => {
            if n == u64::MAX {
                return refuse(backup_path(home, time, n).as_str(), "there is a file already");
            }
            proof {
                assert forall|m: nat| m <= n implies backup_path_of(h, time as nat, (n + 1) as nat)
                    != #[trigger] backup_path_of(h, time as nat, m) by {
                    law_backups_apart(h, time as nat, (n + 1) as nat, time as nat, m);
                }
                law_backups_apart(h, time as nat, (n + 1) as nat, 0, 0);
            }
            let to = backup_path(home, time, n + 1);
            (SavePhase::BackingUp { time, n: n + 1 }, SaveAction::BackUp { to })
        },
        (SavePhase::BackingUp { .. }, SaveEvent::BackedUp) => (
            SavePhase::Writing,
            SaveAction::Write,
        ),
        (SavePhase::BackingUp { time, n }, SaveEvent::BackupFailed { error }) => refuse(
            backup_path(home, time, n).as_str(),
            error.as_str(),
        ),
        (SavePhase::Writing, SaveEvent::Written) => (SavePhase::Done, SaveAction::Report),
        _ => (
            SavePhase::Refused,
            SaveAction::Refuse { message: "unexpected event".to_owned() },
        ),
    }
}

/// The phase after a row of events.
pub open spec fn phase_after(events: Seq<SaveEvent>) -> SavePhase
    decreases events.len(),
{
    if events.len() == 0 {
        SavePhase::Start
    } else {
        next_phase(phase_after(events.drop_last()), events.last())
    }
}

/// What has happened by the phase that copies, and by those after it.
proof fn lemma_phases(events: Seq<SaveEvent>)
    ensures
        match phase_after(events) {
            SavePhase::Start => events.len() == 0,
            SavePhase::Looking => events.len() == 1,
            SavePhase::BackingUp { time, n } => events.len() == n + 2 && events[1] == (
            SaveEvent::Present { time }),
            SavePhase::Writing | SavePhase::Done => events.len() >= 2 && (events[1] is Absent || (
            events[1] is Present && exists|k: int|
                2 <= k < events.len() && #[trigger] events[k] is BackedUp)),
            SavePhase::Refused => true,
        },
    decreases events.len(),
{
    if events.len() > 0 {
        let before = events.drop_last();
        lemma_phases(before);
        if phase_after(before) is Writing && before[1] is Present {
            let k = choose|k: int| 2 <= k < before.len() && #[trigger] before[k] is BackedUp;
            assert(events[k] is BackedUp);
        }
        if phase_after(before) is BackingUp && events.last() is BackedUp {
            assert(events[events.len() - 1] is BackedUp);
        }
    }
}

/// A key file is written only where there was none, or after the one that was there was copied:
/// whatever happened, in the phase that writes, and in every phase after it, the look found no
/// key file, or a copy was made after it had found one.
pub proof fn law_never_overwritten_without_backup(events: Seq<SaveEvent>)
    requires
        phase_after(events) is Writing || phase_after(events) is Done,
    ensures
        events.len() >= 2,
        events[1] is Absent || (events[1] is Present && exists|k: int|
            2 <= k < events.len() && #[trigger] events[k] is BackedUp),
{
    lemma_phases(events);
}

/// While a wallet is written, no path is named twice for the copy: where one was found taken, the
/// next one is another.
pub proof fn law_backup_paths_never_repeat(
    home: Option<Seq<char>>,
    events: Seq<SaveEvent>,
    i: int,
    j: int,
)
    requires
        0 <= i < j <= events.len(),
        phase_after(events.take(i)) is BackingUp,
        phase_after(events.take(j)) is BackingUp,
    ensures
        match (phase_after(events.take(i)), phase_after(events.take(j))) {
            (
                SavePhase::BackingUp { time: time1, n: n1 },
                SavePhase::BackingUp { time: time2, n: n2 },
            ) => backup_path_of(home, time1 as nat, n1 as nat) != backup_path_of(
                home,
                time2 as nat,
                n2 as nat,
            ),
            _ => false,
        },
{
    lemma_phases(events.take(i));
    lemma_phases(events.take(j));
    match (phase_after(events.take(i)), phase_after(events.take(j))) {
        (
            SavePhase::BackingUp { time: time1, n: n1 },
            SavePhase::BackingUp { time: time2, n: n2 },
        ) => {
            law_backups_apart(home, time1 as nat, n1 as nat, time2 as nat, n2 as nat);
        },
        _ => {},
    }
}

/// A copy that fails ends the writing: no event leads from there to a key file being written.
pub proof fn law_refusal_is_final(events: Seq<SaveEvent>, more: Seq<SaveEvent>)
    requires
        phase_after(events) is Refused,
    ensures
        phase_after(events + more) is Refused,
    decreases more.len(),
{
    if more.len() == 0 {
        assert(events + more =~= events);
    } else {
        law_refusal_is_final(events, more.drop_last());
        assert((events + more).drop_last() =~= events + more.drop_last());
    }
}

} // verus!
