//! The catalogue of recognition models: known models with their
//! sizes and checksums, name validation, download bookkeeping, and
//! the orderings the UI presents.

use vstd::prelude::*;
use vstd::string::*;
use vstd::multiset::Multiset;

use crate::text::contains_bytes;
use crate::text::spec_dec_seq;
use crate::text::spec_hex_seq;
use crate::text::to_hex;
use crate::text::u64_to_string;

verus! {

/// Smallest plausible model file: 10 MiB.
pub const MIN_MODEL_SIZE: u64 = 10_485_760;

/// Largest accepted model file: 3.5 GiB.
pub const MAX_MODEL_SIZE: u64 = 3_758_096_384;

/// A validated model size.
#[derive(Debug, Clone, Copy)]
pub struct ModelSize(pub u64);

impl ModelSize {
    /// Accept a size between the 10 MiB minimum and the 3.5 GiB
    /// maximum; anything else is rejected with a message naming the
    /// size.
    pub fn new(size: u64) -> (r: Result<Self, String>)
        ensures
            MIN_MODEL_SIZE <= size <= MAX_MODEL_SIZE <==> (r matches Ok(m) && m.0 == size),
            size < MIN_MODEL_SIZE ==> (r matches Err(m) && m@ == "Model size "@ + spec_dec_seq(
                size as int,
            ) + " bytes is too small. Minimum size is 10MB"@),
            size > MAX_MODEL_SIZE ==> (r matches Err(m) && m@ == "Model size "@ + spec_dec_seq(
                size as int,
            ) + " bytes exceeds maximum allowed size of 3.5GB"@),
    {
        if size < MIN_MODEL_SIZE {
            let mut m = String::new();
            m.append("Model size ");
            m.append(u64_to_string(size).as_str());
            m.append(" bytes is too small. Minimum size is 10MB");
            assert(m@ =~= "Model size "@ + spec_dec_seq(size as int)
                + " bytes is too small. Minimum size is 10MB"@);
            return Result::Err(m);
        }
        if size > MAX_MODEL_SIZE {
            let mut m = String::new();
            m.append("Model size ");
            m.append(u64_to_string(size).as_str());
            m.append(" bytes exceeds maximum allowed size of 3.5GB");
            assert(m@ =~= "Model size "@ + spec_dec_seq(size as int)
                + " bytes exceeds maximum allowed size of 3.5GB"@);
            return Result::Err(m);
        }
        Result::Ok(ModelSize(size))
    }

    /// The validated size in bytes.
    pub fn as_bytes(&self) -> (r: u64)
        ensures
            r == self.0,
    {
        self.0
    }
}

/// One known model with its metadata.
#[derive(Debug, PartialEq)]
pub struct ModelInfo {
    /// Canonical name, also the file stem on disk.
    pub name: String,
    /// Name shown to the user.
    pub display_name: String,
    /// Expected file size in bytes.
    pub size: u64,
    /// Where the model is downloaded from.
    pub url: String,
    /// Expected checksum of the file, as hex: 40 digits for SHA-1,
    /// 64 for SHA-256.
    pub sha256: String,
    /// Whether the file is present and complete on disk.
    pub downloaded: bool,
    /// Speed score, 1 to 10, 10 fastest.
    pub speed_score: u8,
    /// Accuracy score, 1 to 10, 10 most accurate.
    pub accuracy_score: u8,
    /// Whether this model is recommended.
    pub recommended: bool,
}

impl Clone for ModelInfo {
    fn clone(&self) -> (r: Self)
        ensures
            r == *self,
    {
        ModelInfo {
            name: self.name.clone(),
            display_name: self.display_name.clone(),
            size: self.size,
            url: self.url.clone(),
            sha256: self.sha256.clone(),
            downloaded: self.downloaded,
            speed_score: self.speed_score,
            accuracy_score: self.accuracy_score,
            recommended: self.recommended,
        }
    }
}

impl ModelInfo {
    /// This model's size, validated against the global limits.
    pub fn validated_size(&self) -> (r: Result<ModelSize, String>)
        ensures
            MIN_MODEL_SIZE <= self.size <= MAX_MODEL_SIZE <==> (r matches Ok(m) && m.0
                == self.size),
            !(MIN_MODEL_SIZE <= self.size <= MAX_MODEL_SIZE) ==> r is Err,
    {
        ModelSize::new(self.size)
    }
}

/// Some known model carries this name.
pub open spec fn spec_has_model(models: Seq<ModelInfo>, name: Seq<char>) -> bool {
    exists|i: int| 0 <= i < models.len() && models[i].name@ == name
}

/// The first known model carrying this name, if any.
pub open spec fn spec_get_model(models: Seq<ModelInfo>, name: Seq<char>) -> Option<ModelInfo>
    decreases models.len(),
{
    if models.len() == 0 {
        Option::None
    } else if models.first().name@ == name {
        Option::Some(models.first())
    } else {
        spec_get_model(models.drop_first(), name)
    }
}

pub proof fn lemma_get_model_some(models: Seq<ModelInfo>, name: Seq<char>)
    ensures
        (spec_get_model(models, name) is Some) == spec_has_model(models, name),
        match spec_get_model(models, name) {
            Option::Some(m) => m.name@ == name,
            Option::None => true,
        },
    decreases models.len(),
{
    if models.len() > 0 {
        lemma_get_model_some(models.drop_first(), name);
        if models.first().name@ == name {
            assert(models[0].name@ == name);
        } else if spec_has_model(models.drop_first(), name) {
            let k = choose|k: int|
                0 <= k < models.drop_first().len() && models.drop_first()[k].name@ == name;
            assert(models[k + 1].name@ == name);
        } else {
            assert(forall|k: int|
                0 <= k < models.len() && models[k].name@ == name ==> {
                    if k == 0 {
                        false
                    } else {
                        models.drop_first()[k - 1].name@ == name
                    }
                });
        }
    }
}

/// A byte a model name may contain: ASCII letters and digits, dash,
/// underscore, dot.
pub open spec fn spec_name_byte_allowed(b: u8) -> bool {
    (48 <= b <= 57) || (65 <= b <= 90) || (97 <= b <= 122) || b == 45 || b == 95 || b == 46
}

/// A model name is safe for use as a file stem: only allowed bytes,
/// no path separators, and no `..`.
pub open spec fn spec_safe_model_name(b: Seq<u8>) -> bool {
    &&& !contains_bytes(b, encode_dotdot())
    &&& forall|i: int| 0 <= i < b.len() ==> spec_name_byte_allowed(b[i])
}

/// The two bytes of `..`.
pub open spec fn encode_dotdot() -> Seq<u8> {
    seq![46u8, 46u8]
}

fn name_bytes_safe(b: &[u8]) -> (r: bool)
    ensures
        r == spec_safe_model_name(b@),
{
    let dotdot: [u8; 2] = [46, 46];
    if crate::text::bytes_contains(b, dotdot.as_slice()) {
        assert(dotdot@ =~= encode_dotdot());
        return false;
    }
    assert(dotdot@ =~= encode_dotdot());
    let n = b.len();
    let mut i: usize = 0;
    while i < n
        invariant
            n == b@.len(),
            i <= n,
            !contains_bytes(b@, encode_dotdot()),
            forall|k: int| 0 <= k < i ==> spec_name_byte_allowed(b@[k]),
        decreases n - i,
    {
        let c = b[i];
        let ok = (48 <= c && c <= 57) || (65 <= c && c <= 90) || (97 <= c && c <= 122) || c == 45
            || c == 95 || c == 46;
        if !ok {
            return false;
        }
        i += 1;
    }
    true
}

/// `<dir>/<name>.bin`.
pub open spec fn spec_model_path(dir: Seq<char>, name: Seq<char>) -> Seq<char> {
    dir + "/"@ + name + ".bin"@
}

/// The names of the downloaded models, in catalogue order.
pub open spec fn spec_downloaded_names(models: Seq<ModelInfo>) -> Seq<String>
    decreases models.len(),
{
    if models.len() == 0 {
        Seq::empty()
    } else {
        spec_downloaded_names(models.drop_last()) + (if models.last().downloaded {
            seq![models.last().name]
        } else {
            Seq::<String>::empty()
        })
    }
}

/// No two catalogue entries share a name, so name lookups are
/// unambiguous.  The constructors establish it and refreshing the
/// downloaded marks keeps it; it is stated rather than enforced, since
/// mutable catalogue access can rebuild the list.
pub open spec fn spec_unique_model_names(models: Seq<ModelInfo>) -> bool {
    forall|i: int, j: int| 0 <= i < j < models.len() ==> models[i].name@ != models[j].name@
}

/// The preference key for auto-selection: recommended models first,
/// then the faster ones.
pub open spec fn spec_selection_key(m: ModelInfo) -> int {
    (if m.recommended {
        256int
    } else {
        0int
    }) + m.speed_score
}

/// The manager of the model catalogue.
#[derive(Debug, PartialEq)]
pub struct WhisperManager {
    /// Directory that holds the model files.
    pub models_dir: String,
    /// The known models.
    pub models: Vec<ModelInfo>,
}

/// A model file seen on disk, with its size.
#[derive(Debug, PartialEq)]
pub struct ModelFileProbe {
    /// File stem, expected to be a model name.
    pub name: String,
    /// Size of the file in bytes.
    pub size: u64,
}

/// A probe proves a model downloaded when it names the model and its
/// size reaches the expected size less the 5% tolerance.
pub open spec fn spec_probe_downloaded(probes: Seq<ModelFileProbe>, m: ModelInfo) -> bool {
    exists|j: int|
        0 <= j < probes.len() && probes[j].name@ == m.name@ && probes[j].size >= m.size - m.size
            / 20
}

/// One catalogue entry after a refresh: everything kept, only the
/// downloaded mark re-derived from the probes.
pub open spec fn spec_refreshed(probes: Seq<ModelFileProbe>, o: ModelInfo, m: ModelInfo) -> bool {
    m.name == o.name && m.display_name == o.display_name && m.size == o.size && m.url == o.url
        && m.sha256 == o.sha256 && m.speed_score == o.speed_score && m.accuracy_score
        == o.accuracy_score && m.recommended == o.recommended && m.downloaded
        == spec_probe_downloaded(probes, o)
}

/// A probe names this model, whatever its size.
pub open spec fn spec_probe_present(probes: Seq<ModelFileProbe>, name: Seq<char>) -> bool {
    exists|j: int| 0 <= j < probes.len() && probes[j].name@ == name
}

/// A reported file name belongs to a known model that a probe names.
pub open spec fn spec_reported_file(
    models: Seq<ModelInfo>,
    probes: Seq<ModelFileProbe>,
    name: String,
) -> bool {
    exists|i: int|
        0 <= i < models.len() && name == models[i].name && spec_probe_present(
            probes,
            models[i].name@,
        )
}

fn probe_finds(probes: &Vec<ModelFileProbe>, m: &ModelInfo) -> (r: bool)
    ensures
        r == spec_probe_downloaded(probes@, *m),
{
    let min_size = m.size - m.size / 20;
    let n = probes.len();
    let mut j: usize = 0;
    while j < n
        invariant
            n == probes@.len(),
            j <= n,
            min_size == m.size - m.size / 20,
            forall|k: int|
                0 <= k < j ==> !(probes@[k].name@ == m.name@ && probes@[k].size >= m.size - m.size
                    / 20),
        decreases n - j,
    {
        if probes[j].name.eq(&m.name) && probes[j].size >= min_size {
            return true;
        }
        j += 1;
    }
    false
}

fn probe_names(probes: &Vec<ModelFileProbe>, name: &String) -> (r: bool)
    ensures
        r == spec_probe_present(probes@, name@),
{
    let n = probes.len();
    let mut j: usize = 0;
    while j < n
        invariant
            n == probes@.len(),
            j <= n,
            forall|k: int| 0 <= k < j ==> probes@[k].name@ != name@,
        decreases n - j,
    {
        if probes[j].name.eq(name) {
            return true;
        }
        j += 1;
    }
    false
}

impl WhisperManager {
    /// The catalogue of known models, none marked downloaded yet;
    /// `refresh_downloaded_status` records what is on disk.
    pub fn new(models_dir: String) -> (r: Self)
        ensures
            r.models_dir == models_dir,
            r.models@.len() == 4,
            r.models@[0].name@ == "base.en"@,
            r.models@[0].size == 148_897_792,
            r.models@[1].name@ == "small.en"@,
            r.models@[1].size == 488_505_344,
            r.models@[2].name@ == "large-v3-turbo"@,
            r.models@[2].size == 1_610_612_736,
            r.models@[3].name@ == "large-v3"@,
            r.models@[3].size == 3_117_854_720,
            forall|i: int| 0 <= i < 4 ==> !r.models@[i].downloaded,
            spec_unique_model_names(r.models@),
    {
        let mut models: Vec<ModelInfo> = Vec::new();
        models.push(
            ModelInfo {
                name: "base.en".to_owned(),
                display_name: "Base (English)".to_owned(),
                size: 148_897_792,
                url: "https://huggingface.co/ggerganov/whisper.cpp/resolve/main/ggml-base.en.bin".to_owned(),
                sha256: "137c40403d78fd54d454da0f9bd998f78703390c".to_owned(),
                downloaded: false,
                speed_score: 8,
                accuracy_score: 5,
                recommended: false,
            },
        );
        models.push(
            ModelInfo {
                name: "small.en".to_owned(),
                display_name: "Small (English)".to_owned(),
                size: 488_505_344,
                url: "https://huggingface.co/ggerganov/whisper.cpp/resolve/main/ggml-small.en.bin".to_owned(),
                sha256: "db8a495a91d927739e50b3fc1cc4c6b8f6c2d022".to_owned(),
                downloaded: false,
                speed_score: 7,
                accuracy_score: 6,
                recommended: false,
            },
        );
        models.push(
            ModelInfo {
                name: "large-v3-turbo".to_owned(),
                display_name: "Large v3 Turbo".to_owned(),
                size: 1_610_612_736,
                url: "https://huggingface.co/ggerganov/whisper.cpp/resolve/main/ggml-large-v3-turbo.bin".to_owned(),
                sha256: "4af2b29d7ec73d781377bfd1758ca957a807e941".to_owned(),
                downloaded: false,
                speed_score: 7,
                accuracy_score: 9,
                recommended: true,
            },
        );
        models.push(
            ModelInfo {
                name: "large-v3".to_owned(),
                display_name: "Large v3".to_owned(),
                size: 3_117_854_720,
                url: "https://huggingface.co/ggerganov/whisper.cpp/resolve/main/ggml-large-v3.bin".to_owned(),
                sha256: "ad82bf6a9043ceed055076d0fd39f5f186ff8062".to_owned(),
                downloaded: false,
                speed_score: 2,
                accuracy_score: 9,
                recommended: true,
            },
        );
        proof {
            reveal_strlit("base.en");
            reveal_strlit("small.en");
            reveal_strlit("large-v3-turbo");
            reveal_strlit("large-v3");
            assert(("base.en"@).len() == 7);
            assert(("small.en"@).len() == 8);
            assert(("large-v3-turbo"@).len() == 14);
            assert(("large-v3"@).len() == 8);
            assert(("small.en"@)[0] == 's');
            assert(("large-v3"@)[0] == 'l');
        }
        WhisperManager { models_dir, models }
    }

    /// A small catalogue for tests, with tiny sizes.
    pub fn new_for_test(models_dir: String) -> (r: Self)
        ensures
            r.models_dir == models_dir,
            r.models@.len() == 3,
            r.models@[0].name@ == "base.en"@,
            r.models@[1].name@ == "large-v3"@,
            r.models@[2].name@ == "large-v3-q5_0"@,
            forall|i: int| 0 <= i < 3 ==> !r.models@[i].downloaded,
            spec_unique_model_names(r.models@),
    {
        let mut models: Vec<ModelInfo> = Vec::new();
        models.push(
            ModelInfo {
                name: "base.en".to_owned(),
                display_name: "Base (English)".to_owned(),
                size: 1024,
                url: "https://test.example.com/base.en.bin".to_owned(),
                sha256: "test_hash".to_owned(),
                downloaded: false,
                speed_score: 8,
                accuracy_score: 5,
                recommended: false,
            },
        );
        models.push(
            ModelInfo {
                name: "large-v3".to_owned(),
                display_name: "Large v3".to_owned(),
                size: 2048,
                url: "https://test.example.com/large-v3.bin".to_owned(),
                sha256: "test_hash_v3".to_owned(),
                downloaded: false,
                speed_score: 2,
                accuracy_score: 9,
                recommended: true,
            },
        );
        models.push(
            ModelInfo {
                name: "large-v3-q5_0".to_owned(),
                display_name: "Large v3 Q5".to_owned(),
                size: 1536,
                url: "https://test.example.com/large-v3-q5_0.bin".to_owned(),
                sha256: "test_hash_q5".to_owned(),
                downloaded: false,
                speed_score: 4,
                accuracy_score: 8,
                recommended: false,
            },
        );
        proof {
            reveal_strlit("base.en");
            reveal_strlit("large-v3");
            reveal_strlit("large-v3-q5_0");
            assert(("base.en"@).len() == 7);
            assert(("large-v3"@).len() == 8);
            assert(("large-v3-q5_0"@).len() == 13);
        }
        WhisperManager { models_dir, models }
    }

    /// A model name is valid when it names a known model and is safe
    /// as a file stem (no path separators, no `..`, only letters,
    /// digits, dash, underscore and dot).
    pub fn is_valid_model_name(&self, model_name: &str) -> (r: bool)
        ensures
            r == (spec_has_model(self.models@, model_name@) && spec_safe_model_name(
                model_name.spec_bytes(),
            )),
    {
        let known = self.has_model(model_name);
        if !known {
            return false;
        }
        name_bytes_safe(model_name.as_bytes())
    }

    /// Whether a model of this name is in the catalogue.
    pub fn has_model(&self, model_name: &str) -> (r: bool)
        ensures
            r == spec_has_model(self.models@, model_name@),
    {
        let owned = model_name.to_owned();
        let n = self.models.len();
        let mut i: usize = 0;
        while i < n
            invariant
                n == self.models@.len(),
                i <= n,
                owned@ == model_name@,
                forall|k: int| 0 <= k < i ==> self.models@[k].name@ != model_name@,
            decreases n - i,
        {
            if self.models[i].name.eq(&owned) {
                return true;
            }
            i += 1;
        }
        false
    }

    fn get_model(&self, model_name: &str) -> (r: Option<&ModelInfo>)
        ensures
            match r {
                Option::Some(m) => spec_get_model(self.models@, model_name@) == Option::Some(*m),
                Option::None => spec_get_model(self.models@, model_name@) is None,
            },
    {
        let owned = model_name.to_owned();
        let n = self.models.len();
        let mut i: usize = 0;
        assert(self.models@.skip(0) =~= self.models@);
        while i < n
            invariant
                n == self.models@.len(),
                i <= n,
                owned@ == model_name@,
                spec_get_model(self.models@, model_name@) == spec_get_model(
                    self.models@.skip(i as int),
                    model_name@,
                ),
            decreases n - i,
        {
            let models = &self.models;
            assert(models@.skip(i as int).first() == models@[i as int]);
            if models[i].name.eq(&owned) {
                return Option::Some(&models[i]);
            }
            assert(models@.skip(i as int).drop_first() =~= models@.skip(i + 1));
            i += 1;
        }
        assert(self.models@.skip(n as int) =~= Seq::<ModelInfo>::empty());
        Option::None
    }

    fn model_file_path(&self, model_name: &str) -> (r: String)
        ensures
            r@ == spec_model_path(self.models_dir@, model_name@),
    {
        let mut r = String::new();
        r.append(self.models_dir.as_str());
        r.append("/");
        r.append(model_name);
        r.append(".bin");
        assert(r@ =~= spec_model_path(self.models_dir@, model_name@));
        r
    }

    /// The model's metadata and output path, for a download.  An
    /// invalid name or an out-of-range catalogue size is rejected.
    pub fn get_model_info(&self, model_name: &str) -> (r: Result<(ModelInfo, String), String>)
        ensures
            ({
                let valid = spec_has_model(self.models@, model_name@) && spec_safe_model_name(
                    model_name.spec_bytes(),
                );
                &&& !valid ==> (r matches Err(m) && m@ == "Invalid model name: '"@ + model_name@
                    + "'"@)
                &&& valid ==> (match spec_get_model(self.models@, model_name@) {
                    Option::Some(found) => {
                        if MIN_MODEL_SIZE <= found.size <= MAX_MODEL_SIZE {
                            r matches Ok(p) && p.0 == found && p.1@ == spec_model_path(
                                self.models_dir@,
                                model_name@,
                            )
                        } else {
                            r is Err
                        }
                    },
                    Option::None => false,
                })
            }),
    {
        proof {
            lemma_get_model_some(self.models@, model_name@);
        }
        if !self.is_valid_model_name(model_name) {
            let mut m = String::new();
            m.append("Invalid model name: '");
            m.append(model_name);
            m.append("'");
            assert(m@ =~= "Invalid model name: '"@ + model_name@ + "'"@);
            return Result::Err(m);
        }
        let model = match self.get_model(model_name) {
            Option::Some(m) => m.clone(),
            Option::None => {
                return Result::Err("Invalid model name: '".to_owned());
            },
        };
        match model.validated_size() {
            Result::Ok(_) => {},
            Result::Err(e) => {
                return Result::Err(e);
            },
        }
        let path = self.model_file_path(model_name);
        Result::Ok((model, path))
    }

    /// The on-disk path of a downloaded model: only for a valid name
    /// whose model is marked downloaded.
    pub fn get_model_path(&self, model_name: &str) -> (r: Option<String>)
        ensures
            ({
                let valid = spec_has_model(self.models@, model_name@) && spec_safe_model_name(
                    model_name.spec_bytes(),
                );
                match r {
                    Option::Some(p) => valid && (spec_get_model(self.models@, model_name@)
                        matches Option::Some(m) && m.downloaded) && p@ == spec_model_path(
                        self.models_dir@,
                        model_name@,
                    ),
                    Option::None => !valid || (spec_get_model(self.models@, model_name@)
                        matches Option::Some(m) && !m.downloaded),
                }
            }),
    {
        proof {
            lemma_get_model_some(self.models@, model_name@);
        }
        if !self.is_valid_model_name(model_name) {
            return Option::None;
        }
        let downloaded = match self.get_model(model_name) {
            Option::Some(m) => m.downloaded,
            Option::None => false,
        };
        if downloaded {
            Option::Some(self.model_file_path(model_name))
        } else {
            Option::None
        }
    }

    /// The whole catalogue, cloned.
    pub fn get_models_status(&self) -> (r: Vec<ModelInfo>)
        ensures
            r@ == self.models@,
    {
        let n = self.models.len();
        let mut r: Vec<ModelInfo> = Vec::new();
        let mut i: usize = 0;
        while i < n
            invariant
                n == self.models@.len(),
                i <= n,
                r@ =~= self.models@.take(i as int),
            decreases n - i,
        {
            r.push(self.models[i].clone());
            assert(r@ =~= self.models@.take(i + 1));
            i += 1;
        }
        assert(self.models@.take(n as int) =~= self.models@);
        r
    }

    /// Mutable access to the catalogue.
    pub fn get_models_status_mut(&mut self) -> (r: &mut Vec<ModelInfo>)
        ensures
            *r == old(self).models,
            final(self).models == *final(r),
            final(self).models_dir == old(self).models_dir,
    {
        &mut self.models
    }

    /// Whether any model is downloaded.
    pub fn has_downloaded_models(&self) -> (r: bool)
        ensures
            r == exists|i: int| 0 <= i < self.models@.len() && self.models@[i].downloaded,
    {
        let n = self.models.len();
        let mut i: usize = 0;
        while i < n
            invariant
                n == self.models@.len(),
                i <= n,
                forall|k: int| 0 <= k < i ==> !self.models@[k].downloaded,
            decreases n - i,
        {
            if self.models[i].downloaded {
                return true;
            }
            i += 1;
        }
        false
    }

    /// The downloaded model to auto-select: among the downloaded
    /// ones, a model with the best preference key (recommended first,
    /// then fastest); nothing when none is downloaded.
    pub fn get_first_downloaded_model(&self) -> (r: Option<String>)
        ensures
            (r is Some) == exists|i: int| 0 <= i < self.models@.len()
                && self.models@[i].downloaded,
            r matches Some(name) ==> exists|i: int|
                0 <= i < self.models@.len() && self.models@[i].downloaded && name
                    == self.models@[i].name && (forall|j: int|
                    0 <= j < self.models@.len() && self.models@[j].downloaded
                        ==> spec_selection_key(self.models@[j]) <= spec_selection_key(
                        self.models@[i],
                    )),
    {
        let n = self.models.len();
        let mut best: Option<usize> = Option::None;
        let mut i: usize = 0;
        while i < n
            invariant
                n == self.models@.len(),
                i <= n,
                match best {
                    Option::Some(b) => b < i && self.models@[b as int].downloaded && (forall|
                        j: int,
                    |
                        0 <= j < i && self.models@[j].downloaded ==> spec_selection_key(
                            self.models@[j],
                        ) <= spec_selection_key(self.models@[b as int])),
                    Option::None => forall|j: int| 0 <= j < i ==> !self.models@[j].downloaded,
                },
            decreases n - i,
        {
            if self.models[i].downloaded {
                let key_i: u32 = (if self.models[i].recommended {
                    256u32
                } else {
                    0u32
                }) + (self.models[i].speed_score as u32);
                let replace = match best {
                    Option::Some(b) => {
                        let key_b: u32 = (if self.models[b].recommended {
                            256u32
                        } else {
                            0u32
                        }) + (self.models[b].speed_score as u32);
                        key_i >= key_b
                    },
                    Option::None => true,
                };
                if replace {
                    best = Option::Some(i);
                }
            }
            i += 1;
        }
        match best {
            Option::Some(b) => Option::Some(self.models[b].name.clone()),
            Option::None => Option::None,
        }
    }

    /// The names of the downloaded models, in catalogue order.
    pub fn get_downloaded_model_names(&self) -> (r: Vec<String>)
        ensures
            r@ == spec_downloaded_names(self.models@),
    {
        let n = self.models.len();
        let mut r: Vec<String> = Vec::new();
        let mut i: usize = 0;
        assert(self.models@.take(0) =~= Seq::<ModelInfo>::empty());
        while i < n
            invariant
                n == self.models@.len(),
                i <= n,
                r@ == spec_downloaded_names(self.models@.take(i as int)),
            decreases n - i,
        {
            if self.models[i].downloaded {
                r.push(self.models[i].name.clone());
            }
            proof {
                let t = self.models@.take(i + 1);
                assert(t.drop_last() =~= self.models@.take(i as int));
                assert(t.last() == self.models@[i as int]);
                assert(r@ =~= spec_downloaded_names(t));
            }
            i += 1;
        }
        assert(self.models@.take(n as int) =~= self.models@);
        r
    }

    /// Re-derive every model's downloaded mark from what is on disk:
    /// a model counts as downloaded when a probe names it with a size
    /// within the 5% tolerance of the expected size.
    pub fn refresh_downloaded_status(&mut self, probes: &Vec<ModelFileProbe>)
        ensures
            final(self).models_dir == old(self).models_dir,
            final(self).models@.len() == old(self).models@.len(),
            forall|i: int|
                0 <= i < old(self).models@.len() ==> spec_refreshed(
                    probes@,
                    old(self).models@[i],
                    final(self).models@[i],
                ),
            spec_unique_model_names(old(self).models@) ==> spec_unique_model_names(
                final(self).models@,
            ),
    {
        let n = self.models.len();
        let mut i: usize = 0;
        while i < n
            invariant
                n == old(self).models@.len(),
                n == self.models@.len(),
                i <= n,
                self.models_dir == old(self).models_dir,
                forall|k: int| i <= k < n ==> self.models@[k] == old(self).models@[k],
                forall|k: int|
                    0 <= k < i ==> spec_refreshed(probes@, old(self).models@[k], self.models@[k]),
            decreases n - i,
        {
            let found = probe_finds(probes, &self.models[i]);
            let o = self.models[i].clone();
            self.models[i] = ModelInfo {
                name: o.name,
                display_name: o.display_name,
                size: o.size,
                url: o.url,
                sha256: o.sha256,
                downloaded: found,
                speed_score: o.speed_score,
                accuracy_score: o.accuracy_score,
                recommended: o.recommended,
            };
            i += 1;
        }
    }

    /// The known models that have a file on disk, whatever its size.
    /// Unknown files in the directory are never reported.
    pub fn list_downloaded_files(&self, probes: &Vec<ModelFileProbe>) -> (r: Vec<String>)
        ensures
            r@.len() <= self.models@.len(),
            forall|k: int|
                0 <= k < r@.len() ==> spec_reported_file(self.models@, probes@, #[trigger] r@[k]),
    {
        let n = self.models.len();
        let mut r: Vec<String> = Vec::new();
        let mut i: usize = 0;
        while i < n
            invariant
                n == self.models@.len(),
                i <= n,
                r@.len() <= i,
                forall|k: int|
                    0 <= k < r@.len() ==> spec_reported_file(
                        self.models@,
                        probes@,
                        #[trigger] r@[k],
                    ),
            decreases n - i,
        {
            if probe_names(probes, &self.models[i].name) {
                r.push(self.models[i].name.clone());
                proof {
                    let last = r@.len() - 1;
                    assert(r@[last] == self.models@[i as int].name);
                    assert(spec_reported_file(self.models@, probes@, r@[last]));
                }
            }
            i += 1;
        }
        r
    }

    /// Reset hook for clearing all models; the file deletion itself
    /// is done by the surrounding application.
    pub fn clear_all(&mut self)
        ensures
            *final(self) == *old(self),
    {
    }
}

/// The orderings the catalogue can be presented in.
#[derive(Debug, Clone, Copy, PartialEq, Eq, Structural)]
pub enum SortOrder {
    /// Smallest file first.
    Size,
    /// Fastest first.
    SpeedDesc,
    /// Most accurate first.
    AccuracyDesc,
    /// Best balanced score first, weighing accuracy over speed.
    BalancedDesc,
}

/// The ascending sort key of a model under an ordering.  Descending
/// orderings are mapped to ascending keys by flipping the score; the
/// balanced score weighs speed 40% and accuracy 60%.
pub open spec fn spec_sort_key(m: ModelInfo, kind: SortOrder) -> int {
    match kind {
        SortOrder::Size => m.size as int,
        SortOrder::SpeedDesc => 255 - m.speed_score,
        SortOrder::AccuracyDesc => 255 - m.accuracy_score,
        SortOrder::BalancedDesc => 2550 - (4 * (m.speed_score as int) + 6 * (
        m.accuracy_score as int)),
    }
}

/// The sequence is sorted by the ordering's key.
pub open spec fn spec_sorted_by(s: Seq<ModelInfo>, kind: SortOrder) -> bool {
    forall|i: int, j: int|
        0 <= i < j < s.len() ==> spec_sort_key(s[i], kind) <= spec_sort_key(s[j], kind)
}

fn model_key(m: &ModelInfo, kind: SortOrder) -> (r: u64)
    ensures
        r == spec_sort_key(*m, kind),
{
    match kind {
        SortOrder::Size => m.size,
        SortOrder::SpeedDesc => 255 - (m.speed_score as u64),
        SortOrder::AccuracyDesc => 255 - (m.accuracy_score as u64),
        SortOrder::BalancedDesc => 2550 - (4 * (m.speed_score as u64) + 6 * (
        m.accuracy_score as u64)),
    }
}

/// Sort the models by the ordering's key: the result is a
/// rearrangement (same multiset of entries) in key order.
fn sort_models(models: &Vec<ModelInfo>, kind: SortOrder) -> (r: Vec<ModelInfo>)
    ensures
        r@.to_multiset() == models@.to_multiset(),
        r@.len() == models@.len(),
        spec_sorted_by(r@, kind),
{
    broadcast use vstd::seq_lib::group_to_multiset_ensures;

    let n = models.len();
    let mut work: Vec<ModelInfo> = Vec::new();
    let mut i: usize = 0;
    while i < n
        invariant
            n == models@.len(),
            i <= n,
            work@ =~= models@.take(i as int),
        decreases n - i,
    {
        work.push(models[i].clone());
        assert(work@ =~= models@.take(i + 1));
        i += 1;
    }
    assert(models@.take(n as int) =~= models@);
    let mut out: Vec<ModelInfo> = Vec::new();
    while work.len() > 0
        invariant
            out@.to_multiset().add(work@.to_multiset()) =~= models@.to_multiset(),
            out@.len() + work@.len() == models@.len(),
            spec_sorted_by(out@, kind),
            forall|a: int, b: int|
                0 <= a < out@.len() && 0 <= b < work@.len() ==> spec_sort_key(out@[a], kind)
                    <= spec_sort_key(work@[b], kind),
        decreases work@.len(),
    {
        let m = work.len();
        let mut min_idx: usize = 0;
        let mut j: usize = 1;
        while j < m
            invariant
                m == work@.len(),
                1 <= m,
                min_idx < j,
                j <= m,
                forall|k: int|
                    0 <= k < j ==> spec_sort_key(work@[min_idx as int], kind) <= spec_sort_key(
                        work@[k],
                        kind,
                    ),
            decreases m - j,
        {
            if model_key(&work[j], kind) < model_key(&work[min_idx], kind) {
                min_idx = j;
            }
            j += 1;
        }
        let ghost old_out = out@;
        let ghost old_work = work@;
        let x = work.remove(min_idx);
        out.push(x);
        proof {
            broadcast use vstd::seq_lib::group_to_multiset_ensures;

            assert(old_work.contains(x)) by {
                assert(old_work[min_idx as int] == x);
            }
            assert(old_work.to_multiset().count(x) > 0);
            assert(out@ == old_out.push(x));
            assert(old_out.push(x).to_multiset() =~= old_out.to_multiset().insert(x));
            assert(work@ == old_work.remove(min_idx as int));
            assert(old_work.remove(min_idx as int).to_multiset() =~= old_work.to_multiset().remove(
                old_work[min_idx as int],
            ));
            assert(out@.to_multiset() =~= old_out.to_multiset().insert(x));
            assert(work@.to_multiset() =~= old_work.to_multiset().remove(x));
            assert(out@.to_multiset().add(work@.to_multiset()) =~= old_out.to_multiset().add(
                old_work.to_multiset(),
            ));
            assert forall|b: int| 0 <= b < work@.len() implies spec_sort_key(x, kind)
                <= spec_sort_key(work@[b], kind) by {
                if b < min_idx {
                    assert(work@[b] == old_work[b]);
                } else {
                    assert(work@[b] == old_work[b + 1]);
                }
            }
            assert forall|a: int, b: int|
                0 <= a < out@.len() && 0 <= b < work@.len() implies spec_sort_key(out@[a], kind)
                <= spec_sort_key(work@[b], kind) by {
                if a < out@.len() - 1 {
                    if b < min_idx {
                        assert(work@[b] == old_work[b]);
                    } else {
                        assert(work@[b] == old_work[b + 1]);
                    }
                } else {
                    assert(out@[a] == x);
                }
            }
            assert(spec_sorted_by(out@, kind)) by {
                assert forall|a: int, b: int| 0 <= a < b < out@.len() implies spec_sort_key(
                    out@[a],
                    kind,
                ) <= spec_sort_key(out@[b], kind) by {
                    if b < out@.len() - 1 {
                        assert(out@[a] == old_out[a] && out@[b] == old_out[b]);
                    } else {
                        assert(out@[b] == x);
                        assert(out@[a] == old_out[a]);
                        assert(old_work[min_idx as int] == x);
                    }
                }
            }
        }
    }
    proof {
        broadcast use vstd::seq_lib::group_to_multiset_ensures;

        assert(work@ =~= Seq::<ModelInfo>::empty());
        assert(work@.to_multiset() =~= Multiset::<ModelInfo>::empty());
        assert(out@.to_multiset() =~= models@.to_multiset());
    }
    out
}

/// The names of a model sequence, in order.
pub open spec fn spec_model_names(models: Seq<ModelInfo>) -> Seq<String>
    decreases models.len(),
{
    if models.len() == 0 {
        Seq::empty()
    } else {
        spec_model_names(models.drop_last()).push(models.last().name)
    }
}

impl WhisperManager {
    /// The model names ordered by file size, smallest first.
    pub fn get_models_by_size(&self) -> (r: Vec<String>)
        ensures
            exists|sorted: Seq<ModelInfo>|
                #![trigger spec_model_names(sorted)]
                sorted.to_multiset() == self.models@.to_multiset() && spec_sorted_by(
                    sorted,
                    SortOrder::Size,
                ) && r@ == spec_model_names(sorted),
    {
        let sorted = sort_models(&self.models, SortOrder::Size);
        let n = sorted.len();
        let mut r: Vec<String> = Vec::new();
        let mut i: usize = 0;
        assert(sorted@.take(0) =~= Seq::<ModelInfo>::empty());
        while i < n
            invariant
                n == sorted@.len(),
                i <= n,
                r@ == spec_model_names(sorted@.take(i as int)),
            decreases n - i,
        {
            r.push(sorted[i].name.clone());
            proof {
                let t = sorted@.take(i + 1);
                assert(t.drop_last() =~= sorted@.take(i as int));
                assert(t.last() == sorted@[i as int]);
                assert(r@ =~= spec_model_names(t));
            }
            i += 1;
        }
        assert(sorted@.take(n as int) =~= sorted@);
        r
    }

    /// The catalogue as name-model pairs, ordered by the named
    /// metric: `speed`, `accuracy` or `size`, anything else by the
    /// balanced score.
    pub fn get_models_sorted(&self, sort_by: &str) -> (r: Vec<(String, ModelInfo)>)
        ensures
            ({
                let kind = spec_order_for(sort_by@);
                exists|sorted: Seq<ModelInfo>|
                    #![trigger spec_sorted_by(sorted, kind)]
                    sorted.to_multiset() == self.models@.to_multiset() && spec_sorted_by(
                        sorted,
                        kind,
                    ) && r@.len() == sorted.len() && (forall|k: int|
                        0 <= k < sorted.len() ==> #[trigger] r@[k] == (sorted[k].name, sorted[k]))
            }),
    {
        let kind = order_for(sort_by);
        let sorted = sort_models(&self.models, kind);
        let n = sorted.len();
        let mut r: Vec<(String, ModelInfo)> = Vec::new();
        let mut i: usize = 0;
        while i < n
            invariant
                n == sorted@.len(),
                i <= n,
                r@.len() == i,
                forall|k: int| 0 <= k < i ==> #[trigger] r@[k] == (sorted@[k].name, sorted@[k]),
            decreases n - i,
        {
            r.push((sorted[i].name.clone(), sorted[i].clone()));
            i += 1;
        }
        r
    }
}

/// The ordering a sort request names: `speed`, `accuracy` or `size`,
/// anything else the balanced score.
pub open spec fn spec_order_for(sort_by: Seq<char>) -> SortOrder {
    if sort_by == "speed"@ {
        SortOrder::SpeedDesc
    } else if sort_by == "accuracy"@ {
        SortOrder::AccuracyDesc
    } else if sort_by == "size"@ {
        SortOrder::Size
    } else {
        SortOrder::BalancedDesc
    }
}

fn order_for(sort_by: &str) -> (r: SortOrder)
    ensures
        r == spec_order_for(sort_by@),
{
    let owned = sort_by.to_owned();
    if owned.eq(&"speed".to_owned()) {
        SortOrder::SpeedDesc
    } else if owned.eq(&"accuracy".to_owned()) {
        SortOrder::AccuracyDesc
    } else if owned.eq(&"size".to_owned()) {
        SortOrder::Size
    } else {
        SortOrder::BalancedDesc
    }
}

/// The SHA-256 digest of a byte string, as the outside hash
/// implementation computes it.
pub uninterp spec fn sha256_of(data: Seq<u8>) -> Seq<u8>;

/// The SHA-1 digest of a byte string, as the outside hash
/// implementation computes it.
pub uninterp spec fn sha1_of(data: Seq<u8>) -> Seq<u8>;

/// Relies on sha2::Sha256::digest: a 32-byte digest determined by the
/// data alone.
#[verifier::external_body]
fn sha256_digest(data: &[u8]) -> (r: Vec<u8>)
    ensures
        r@ == sha256_of(data@),
        r@.len() == 32,
{
    <sha2::Sha256 as sha2::Digest>::digest(data).to_vec()
}

/// Relies on sha1::Sha1::digest: a 20-byte digest determined by the
/// data alone.
#[verifier::external_body]
fn sha1_digest(data: &[u8]) -> (r: Vec<u8>)
    ensures
        r@ == sha1_of(data@),
        r@.len() == 20,
{
    <sha1::Sha1 as sha1::Digest>::digest(data).to_vec()
}

/// A download's checksum is acceptable: a 40-digit expectation must
/// equal the hex SHA-1 of the data, a 64-digit one the hex SHA-256;
/// any other expectation (the empty one included) cannot be checked
/// and is accepted.
pub open spec fn spec_checksum_ok(data: Seq<u8>, expected: Seq<char>) -> bool {
    if expected.len() == 40 {
        spec_hex_seq(sha1_of(data)) == expected
    } else if expected.len() == 64 {
        spec_hex_seq(sha256_of(data)) == expected
    } else {
        true
    }
}

/// Check a downloaded file's bytes against the catalogue's expected
/// checksum.
pub fn verify_download_checksum(data: &[u8], expected: &str) -> (r: bool)
    ensures
        r == spec_checksum_ok(data@, expected@),
{
    let n = expected.unicode_len();
    if n == 40 {
        let digest = sha1_digest(data);
        let hex = to_hex(digest.as_slice());
        hex.eq(&expected.to_owned())
    } else if n == 64 {
        let digest = sha256_digest(data);
        let hex = to_hex(digest.as_slice());
        hex.eq(&expected.to_owned())
    } else {
        true
    }
}

/// What to do about a file already at the download target.
#[derive(Debug, Clone, Copy, PartialEq, Eq, Structural)]
pub enum DownloadPrecheck {
    /// No file yet: download.
    Fresh,
    /// An incomplete file sits there: remove it, then download.
    RemoveCorrupted,
    /// A complete file sits there: refuse to re-download.
    AlreadyComplete,
}

/// Decide what to do about an existing file at the download target:
/// a file smaller than the expected size less the 5% tolerance is
/// corrupt and gets removed; anything at least that large counts as
/// already downloaded.
pub fn download_precheck(existing_size: Option<u64>, expected_size: u64) -> (r: DownloadPrecheck)
    ensures
        existing_size is None ==> r == DownloadPrecheck::Fresh,
        existing_size matches Some(fs) ==> r == (if fs < expected_size - expected_size / 20 {
            DownloadPrecheck::RemoveCorrupted
        } else {
            DownloadPrecheck::AlreadyComplete
        }),
{
    match existing_size {
        Option::None => DownloadPrecheck::Fresh,
        Option::Some(fs) => {
            let min_size = expected_size - expected_size / 20;
            if fs < min_size {
                DownloadPrecheck::RemoveCorrupted
            } else {
                DownloadPrecheck::AlreadyComplete
            }
        },
    }
}

/// A size the server reports is acceptable when it is within 10% of
/// the expected size.
pub open spec fn spec_reported_size_acceptable(total: u64, expected: u64) -> bool {
    10 * (if total >= expected {
        total - expected
    } else {
        expected - total
    }) <= expected
}

/// Whether the size the server reports is within the 10% variance
/// allowed around the expected size.
pub fn reported_size_acceptable(total: u64, expected: u64) -> (r: bool)
    ensures
        r == spec_reported_size_acceptable(total, expected),
{
    let diff = if total >= expected {
        total - expected
    } else {
        expected - total
    };
    if diff >= expected && diff > 0 {
        return false;
    }
    if diff > u64::MAX / 10 {
        return false;
    }
    diff * 10 <= expected
}

/// A downloaded byte count stays within the expected total plus the
/// 1% tolerance.
pub open spec fn spec_chunk_within_limit(downloaded: int, chunk_len: int, total: int) -> bool {
    downloaded + chunk_len <= total + total / 100
}

/// Whether accepting the next chunk would stay within the expected
/// total plus the 1% tolerance; a download beyond that is aborted.
pub fn chunk_within_limit(downloaded: u64, chunk_len: u64, total: u64) -> (r: bool)
    ensures
        r == spec_chunk_within_limit(downloaded as int, chunk_len as int, total as int),
{
    let slack = total / 100;
    if downloaded <= total {
        let rem = total - downloaded;
        if chunk_len <= rem {
            true
        } else {
            chunk_len - rem <= slack
        }
    } else {
        let excess = downloaded - total;
        if chunk_len > slack {
            false
        } else {
            excess <= slack - chunk_len
        }
    }
}

/// Progress is reported every whole percent and at the very end, so
/// the UI is not flooded.
pub fn should_emit_progress(downloaded: u64, last_reported: u64, total: u64) -> (r: bool)
    requires
        last_reported <= downloaded,
    ensures
        r == (downloaded - last_reported >= total / 100 || downloaded == total),
{
    downloaded - last_reported >= total / 100 || downloaded == total
}

} // verus!
