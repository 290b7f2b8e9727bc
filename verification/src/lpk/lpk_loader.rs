//! The loader of an archive: what its manifest says, and what an extraction
//! does with each entry.
//!
//! The loader holds no path and opens nothing. Its caller reads the archive
//! and hands over texts, bytes and answers; the loader says which key an
//! entry has, which entries to take, and under which names to write them.

use crate::cipher::{decrypt, decrypted, derived_key, make_key};
use crate::lpk::configs::{Live2dConfig, LpkCharacter, LpkConfig, LpkCostume, MLveConfig};
use crate::lpk::errors::{LpkError, LpkErrorView};
use crate::lpk::helpers::{is_encrypted_file, is_encrypted_name};
use crate::lpk::name_map::{has_key, with_pair, NameMap};
use crate::strings::{concat3, decimal, str_eq, to_decimal};
use crate::views::views;
use vstd::prelude::*;
use vstd::string::StringExecFns;

verus! {

/// The key of the entry `filename` in an archive of type `kind`, or nothing
/// where no policy is known for the type.
///
/// A stand-alone archive keys an entry by its identifier and the name. A
/// workshop archive keys it by its identifier, the identifier of the file,
/// the name and the metadata of its configuration; where its manifest says
/// `false` of encryption, the key is 0.
pub open spec fn entry_key_of(
    kind: Seq<char>,
    id: Seq<char>,
    file_id: Seq<char>,
    filename: Seq<char>,
    meta_data: Seq<char>,
    encrypt: Seq<char>,
) -> Option<int> {
    if kind == "STD_1_0"@ || kind == "STD2_0"@ {
        Some(derived_key(id + filename))
    } else if kind == "STM_1_0"@ {
        if encrypt == "false"@ {
            Some(0)
        } else {
            Some(derived_key(id + file_id + filename + meta_data))
        }
    } else {
        None
    }
}

/// The key of the entry `filename` in the archive of a manifest and a
/// configuration.
pub open spec fn key_of(
    kind: Seq<char>,
    manifest: MLveConfig,
    config: LpkConfig,
    filename: Seq<char>,
) -> Option<int> {
    entry_key_of(
        kind,
        manifest.id@,
        config.file_id@,
        filename,
        config.meta_data@,
        manifest.encrypt@,
    )
}

/// The failure of an archive of a type for which no key policy is known.
pub open spec fn no_policy(kind: Seq<char>) -> LpkErrorView {
    LpkErrorView::DecodeError { format: kind, message: "unimplement"@ }
}

/// The text of the manifest: that of the entry under the hashed name where
/// there is one and it is not empty, else that of the entry under the plain
/// name, else the failure of an archive without a manifest.
pub open spec fn chosen_manifest(hashed: Option<Seq<char>>, plain: Option<Seq<char>>) -> Result<
    Seq<char>,
    LpkErrorView,
> {
    if hashed is Some && hashed->Some_0.len() > 0 {
        Ok(hashed->Some_0)
    } else if plain is Some {
        Ok(plain->Some_0)
    } else {
        Err(LpkErrorView::ConfigMissing)
    }
}

/// How an archive is taken apart.
#[derive(Debug, Clone, Copy, PartialEq, Eq, Structural)]
pub enum Extraction {
    /// Costume by costume, as the manifest lists them.
    Standard,
    /// An archive of an older or unknown type that is not encrypted: all its
    /// entries are unpacked as they are.
    LegacyUnpack,
    /// An archive of an older or unknown type that is encrypted: its entries
    /// are taken one by one.
    LegacyDecrypt,
}

/// What becomes of one entry of an archive of an older type.
#[derive(Debug, Clone, Copy, PartialEq, Eq, Structural)]
pub enum LegacyAction {
    /// The entry is passed over.
    Skip,
    /// The entry is a text and is written as it is.
    Copy,
    /// The entry is decrypted and then written.
    Decrypt,
}

/// What becomes of an entry whose name has the given ending: nothing without
/// an ending, a copy for `json`, `mlve` and `txt`, a decryption for all
/// else.
pub open spec fn legacy_action(extension: Option<Seq<char>>) -> LegacyAction {
    match extension {
        None => LegacyAction::Skip,
        Some(ending) => if ending == "json"@ || ending == "mlve"@ || ending == "txt"@ {
            LegacyAction::Copy
        } else {
            LegacyAction::Decrypt
        },
    }
}

/// One costume to extract.
#[derive(Debug, PartialEq)]
pub struct CostumeTask {
    /// The name of the entry that describes the costume.
    pub path: String,
    /// The name of the directory of its character.
    pub directory: String,
    /// The name by which the task is spoken of.
    pub label: String,
}

/// What a [`CostumeTask`] holds.
pub struct CostumeTaskView {
    pub path: Seq<char>,
    pub directory: Seq<char>,
    pub label: Seq<char>,
}

impl View for CostumeTask {
    type V = CostumeTaskView;

    open spec fn view(&self) -> CostumeTaskView {
        CostumeTaskView { path: self.path@, directory: self.directory@, label: self.label@ }
    }
}

/// A file to write.
#[derive(Debug, PartialEq)]
pub struct OutputFile {
    pub name: String,
    pub data: Vec<u8>,
}

/// What an [`OutputFile`] holds.
pub struct OutputFileView {
    pub name: Seq<char>,
    pub data: Seq<u8>,
}

impl View for OutputFile {
    type V = OutputFileView;

    open spec fn view(&self) -> OutputFileView {
        OutputFileView { name: self.name@, data: self.data@ }
    }
}

/// An entry that a model refers to, and the name under which its decrypted
/// bytes are written.
#[derive(Debug, PartialEq)]
pub struct Reference {
    pub entry: String,
    pub output: String,
    /// Whether the extraction fails where the archive lacks the entry. An
    /// entry that is not required is passed over then.
    pub required: bool,
}

/// What a [`Reference`] holds.
pub struct ReferenceView {
    pub entry: Seq<char>,
    pub output: Seq<char>,
    pub required: bool,
}

impl View for Reference {
    type V = ReferenceView;

    open spec fn view(&self) -> ReferenceView {
        ReferenceView { entry: self.entry@, output: self.output@, required: self.required }
    }
}

/// The name of the directory of a character: its name, or `character` where
/// it has none.
pub open spec fn character_name(character: LpkCharacter) -> Seq<char> {
    if character.character@.len() == 0 {
        "character"@
    } else {
        character.character@
    }
}

/// The tasks of the costumes of one character: one for each costume that
/// has a path, in their order. The label counts all the costumes, from 0.
pub open spec fn costume_tasks(name: Seq<char>, costumes: Seq<LpkCostume>) -> Seq<CostumeTaskView>
    decreases costumes.len(),
{
    if costumes.len() == 0 {
        Seq::empty()
    } else {
        let before = costume_tasks(name, costumes.drop_last());
        let costume = costumes.last();
        if costume.path@.len() == 0 {
            before
        } else {
            before.push(
                CostumeTaskView {
                    path: costume.path@,
                    directory: name,
                    label: name + "_costume_"@ + decimal((costumes.len() - 1) as nat),
                },
            )
        }
    }
}

/// The tasks of all the characters of a manifest, in their order.
pub open spec fn standard_tasks(list: Seq<LpkCharacter>) -> Seq<CostumeTaskView>
    decreases list.len(),
{
    if list.len() == 0 {
        Seq::empty()
    } else {
        standard_tasks(list.drop_last()) + costume_tasks(
            character_name(list.last()),
            list.last().costume@,
        )
    }
}

/// An archive of type `kind` has a key policy.
pub open spec fn has_policy(kind: Seq<char>) -> bool {
    kind == "STD_1_0"@ || kind == "STD2_0"@ || kind == "STM_1_0"@
}

/// The descriptions that one model entry gives for the costumes of one
/// character: for each costume the bytes of the entry, decrypted with the
/// key of the costume's path, under the names of character and costume.
pub open spec fn costume_outputs(
    loader: LpkLoader,
    character: Seq<char>,
    costumes: Seq<LpkCostume>,
    buffer: Seq<u8>,
) -> Seq<OutputFileView> {
    Seq::new(
        costumes.len(),
        |i: int|
            OutputFileView {
                name: character + "-"@ + costumes[i].name@ + ".model3.json"@,
                data: decrypted(loader.key(costumes[i].path@)->Some_0, buffer),
            },
    )
}

/// The descriptions for the costumes of all characters, in their order.
pub open spec fn model_outputs(loader: LpkLoader, list: Seq<LpkCharacter>, buffer: Seq<u8>) -> Seq<
    OutputFileView,
>
    decreases list.len(),
{
    if list.len() == 0 {
        Seq::empty()
    } else {
        model_outputs(loader, list.drop_last(), buffer) + costume_outputs(
            loader,
            list.last().character@,
            list.last().costume@,
            buffer,
        )
    }
}

/// The number of costumes of all characters.
pub open spec fn costume_count(list: Seq<LpkCharacter>) -> nat
    decreases list.len(),
{
    if list.len() == 0 {
        0
    } else {
        costume_count(list.drop_last()) + list.last().costume@.len()
    }
}

/// The entries that a model refers to, of those whose names are names of
/// encrypted entries: its `moc`, which is required and is written as
/// `character.moc3`, then its textures in their order, each written as
/// `texture` with the number `entries` and `.png`.
pub open spec fn model_references(model: Live2dConfig, entries: nat) -> Seq<ReferenceView> {
    let head = if is_encrypted_name(model.model@) {
        seq![
            ReferenceView { entry: model.model@, output: "character.moc3"@, required: true },
        ]
    } else {
        Seq::empty()
    };
    head + texture_references(model.textures@, entries)
}

/// The references to the textures of a model.
pub open spec fn texture_references(textures: Seq<String>, entries: nat) -> Seq<ReferenceView>
    decreases textures.len(),
{
    if textures.len() == 0 {
        Seq::empty()
    } else {
        let before = texture_references(textures.drop_last(), entries);
        if is_encrypted_name(textures.last()@) {
            before.push(
                ReferenceView {
                    entry: textures.last()@,
                    output: "texture"@ + decimal(entries) + ".png"@,
                    required: false,
                },
            )
        } else {
            before
        }
    }
}

/// Derives the key of an entry from the type of its archive and the texts
/// that the type calls for.
pub fn entry_key(
    kind: &str,
    id: &str,
    file_id: &str,
    filename: &str,
    meta_data: &str,
    encrypt: &str,
) -> (r: Option<i64>)
    ensures
        match r {
            Some(key) => entry_key_of(kind@, id@, file_id@, filename@, meta_data@, encrypt@)
                == Some(key as int),
            None => entry_key_of(kind@, id@, file_id@, filename@, meta_data@, encrypt@) is None,
        },
{
    if str_eq(kind, "STD_1_0") || str_eq(kind, "STD2_0") {
        let mut seed = String::from_str(id);
        seed.append(filename);
        Some(make_key(seed.as_str()))
    } else if str_eq(kind, "STM_1_0") {
        if str_eq(encrypt, "false") {
            Some(0)
        } else {
            let mut seed = concat3(id, file_id, filename);
            seed.append(meta_data);
            Some(make_key(seed.as_str()))
        }
    } else {
        None
    }
}

/// Decrypts the bytes of an entry under the key that the type of its
/// archive calls for. The result is as long as the bytes.
pub fn decrypt_entry(
    kind: &str,
    id: &str,
    file_id: &str,
    filename: &str,
    meta_data: &str,
    encrypt: &str,
    data: &[u8],
) -> (r: Result<Vec<u8>, LpkError>)
    ensures
        match entry_key_of(kind@, id@, file_id@, filename@, meta_data@, encrypt@) {
            Some(key) => r matches Ok(out) && out@ == decrypted(key, data@) && out@.len()
                == data@.len(),
            None => r matches Err(e) && e@ == no_policy(kind@),
        },
{
    match entry_key(kind, id, file_id, filename, meta_data, encrypt) {
        Some(key) => Ok(decrypt(key, data)),
        None => Err(
            LpkError::DecodeError {
                format: String::from_str(kind),
                message: String::from_str("unimplement"),
            },
        ),
    }
}

/// The loader of one archive.
pub struct LpkLoader {
    /// The type of the archive
    lpk_type: String,
    /// Whether the archive is encrypted
    encrypted: bool,
    /// The names of the entries that were decrypted, each with the name of
    /// the file it was written to
    uncompressed: NameMap<String>,
    /// The texts to write, each under its name
    entrys: NameMap<String>,
    /// The configuration beside a workshop archive
    config: LpkConfig,
    /// The manifest
    mlve_config: MLveConfig,
}

impl LpkLoader {
    /// The type of the archive.
    pub closed spec fn kind(&self) -> Seq<char> {
        self.lpk_type@
    }

    /// Whether the archive is encrypted.
    pub closed spec fn encrypted(&self) -> bool {
        self.encrypted
    }

    /// The manifest of the archive.
    pub closed spec fn manifest(&self) -> MLveConfig {
        self.mlve_config
    }

    /// The configuration beside the archive.
    pub closed spec fn config(&self) -> LpkConfig {
        self.config
    }

    /// The entries that were decrypted, with the names of their files.
    pub closed spec fn unpacked(&self) -> Seq<(Seq<char>, String)> {
        self.uncompressed.entries()
    }

    /// The number of texts to write.
    pub closed spec fn entries(&self) -> nat {
        self.entrys.entries().len()
    }

    /// The type and the encryption are those of the manifest, and no entry
    /// is among the decrypted ones twice.
    pub open spec fn wf(&self) -> bool {
        &&& self.kind() == self.manifest().kind@
        &&& self.encrypted() == (self.manifest().encrypt@ == "encrypt"@)
        &&& self.unpacked_wf()
    }

    /// No entry is among the decrypted ones twice.
    pub closed spec fn unpacked_wf(&self) -> bool {
        self.uncompressed.wf()
    }

    /// The key of the entry `filename` in this archive.
    pub open spec fn key(&self, filename: Seq<char>) -> Option<int> {
        key_of(self.kind(), self.manifest(), self.config(), filename)
    }

    /// Chooses the text of the manifest from what the archive holds under
    /// the hashed name of the manifest and under its plain name.
    pub fn load_lpk(hashed: Option<String>, plain: Option<String>) -> (r: Result<String, LpkError>)
        ensures
            match r {
                Ok(text) => chosen_manifest(opt_view(hashed), opt_view(plain)) == Ok::<
                    Seq<char>,
                    LpkErrorView,
                >(text@),
                Err(e) => chosen_manifest(opt_view(hashed), opt_view(plain)) == Err::<
                    Seq<char>,
                    LpkErrorView,
                >(e@),
            },
    {
        match hashed {
            Some(text) => {
                if !text.as_str().is_empty() {
                    return Ok(text);
                }
            },
            None => {},
        }
        match plain {
            Some(text) => Ok(text),
            None => Err(LpkError::ConfigMissing),
        }
    }

    /// Whether the entry under the plain name of the manifest is called for:
    /// it is where the entry under the hashed name is not there or is empty.
    pub fn wants_plain(hashed: Option<&str>) -> (r: bool)
        ensures
            r == !(hashed matches Some(text) && text@.len() > 0),
    {
        match hashed {
            Some(text) => text.is_empty(),
            None => true,
        }
    }

    /// Whether an archive with this manifest needs the configuration beside
    /// it: a workshop archive does.
    pub fn needs_config(mlve_config: &MLveConfig) -> (r: bool)
        ensures
            r == (mlve_config.kind@ == "STM_1_0"@),
    {
        str_eq(mlve_config.kind.as_str(), "STM_1_0")
    }

    /// A loader for an archive with the given manifest and no configuration
    /// beside it.
    pub fn open(mlve_config: MLveConfig) -> (loader: Self)
        ensures
            loader.wf(),
            loader.manifest() == mlve_config,
            loader.config().is_blank(),
            loader.unpacked().len() == 0,
            loader.entries() == 0,
    {
        Self::open_with_config(mlve_config, LpkConfig::default())
    }

    /// A loader for an archive with the given manifest and the configuration
    /// beside it.
    pub fn open_with_config(mlve_config: MLveConfig, config: LpkConfig) -> (loader: Self)
        ensures
            loader.wf(),
            loader.manifest() == mlve_config,
            loader.config() == config,
            loader.unpacked().len() == 0,
            loader.entries() == 0,
    {
        let lpk_type = mlve_config.kind.clone();
        let encrypted = str_eq(mlve_config.encrypt.as_str(), "encrypt");
        LpkLoader {
            lpk_type,
            encrypted,
            uncompressed: NameMap::new(),
            entrys: NameMap::new(),
            config,
            mlve_config,
        }
    }

    /// How this archive is taken apart.
    pub fn extract(&self) -> (r: Extraction)
        ensures
            r == if self.kind() == "STD2_0"@ || self.kind() == "STM_1_0"@ {
                Extraction::Standard
            } else if self.encrypted() {
                Extraction::LegacyDecrypt
            } else {
                Extraction::LegacyUnpack
            },
    {
        if str_eq(self.lpk_type.as_str(), "STD2_0") || str_eq(self.lpk_type.as_str(), "STM_1_0") {
            Extraction::Standard
        } else if self.encrypted {
            Extraction::LegacyDecrypt
        } else {
            Extraction::LegacyUnpack
        }
    }

    /// Decrypts the bytes of the entry `filename` under the key that the
    /// type of the archive calls for. The result is as long as the bytes.
    pub fn decrypt_data(&self, filename: &str, data: &[u8]) -> (r: Result<Vec<u8>, LpkError>)
        ensures
            match self.key(filename@) {
                Some(key) => r matches Ok(out) && out@ == decrypted(key, data@) && out@.len()
                    == data@.len(),
                None => r matches Err(e) && e@ == no_policy(self.kind()),
            },
    {
        decrypt_entry(
            self.lpk_type.as_str(),
            self.mlve_config.id.as_str(),
            self.config.file_id.as_str(),
            filename,
            self.config.meta_data.as_str(),
            self.mlve_config.encrypt.as_str(),
            data,
        )
    }

    /// Notes that the entry `entry` was decrypted and written to `output`.
    pub fn record(&mut self, entry: String, output: String)
        requires
            old(self).wf(),
        ensures
            final(self).wf(),
            final(self).unpacked() == with_pair(old(self).unpacked(), entry@, output),
            final(self).kind() == old(self).kind(),
            final(self).encrypted() == old(self).encrypted(),
            final(self).manifest() == old(self).manifest(),
            final(self).config() == old(self).config(),
            final(self).entries() == old(self).entries(),
    {
        self.uncompressed.insert(entry, output);
    }

    /// The name of the file that the entry `entry` was written to, if it was
    /// decrypted.
    pub fn recorded(&self, entry: &str) -> (r: Option<&String>)
        ensures
            match r {
                Some(output) => has_key(self.unpacked(), entry@) && *output
                    == crate::lpk::name_map::value_of(self.unpacked(), entry@),
                None => !has_key(self.unpacked(), entry@),
            },
    {
        self.uncompressed.get(entry)
    }

    /// The archive is to be asked for the entry `model_json`: it is where
    /// the archive is encrypted, the entry was not decrypted before, and its
    /// name is that of an encrypted entry.
    pub open spec fn looks_up(&self, model_json: Seq<char>) -> bool {
        &&& self.encrypted()
        &&& !has_key(self.unpacked(), model_json)
        &&& is_encrypted_name(model_json)
    }

    /// The archive lacks an entry that it is asked for.
    pub open spec fn misses(&self, model_json: Seq<char>, in_archive: bool) -> bool {
        self.looks_up(model_json) && !in_archive
    }

    /// Whether the archive is to be asked for the entry `model_json`.
    pub fn needs_lookup(&self, model_json: &str) -> (r: bool)
        ensures
            r == self.looks_up(model_json@),
    {
        self.encrypted && !self.uncompressed.contains_key(model_json) && is_encrypted_file(
            model_json,
        )
    }

    /// Sees whether the model entry `model_json` can be taken, `in_archive`
    /// saying whether the archive holds it: it cannot be taken where the
    /// archive is asked for it and lacks it.
    pub fn check_decrypt(&self, model_json: &str, in_archive: bool) -> (r: Result<(), LpkError>)
        ensures
            match r {
                Ok(_) => !self.misses(model_json@, in_archive),
                Err(e) => self.misses(model_json@, in_archive) && e@
                    == LpkErrorView::DecryptionFailed("File not found: "@ + model_json@),
            },
    {
        if self.needs_lookup(model_json) && !in_archive {
            Err(
                LpkError::DecryptionFailed(
                    String::from_str("File not found: ").concat(model_json),
                ),
            )
        } else {
            Ok(())
        }
    }

    /// Decides on one costume: nothing is done for an empty name, the
    /// extraction fails where the entry is missed, and else the model entry
    /// is to be extracted.
    pub fn extract_costume(&self, model_json: &str, in_archive: bool) -> (r: Result<
        bool,
        LpkError,
    >)
        ensures
            match r {
                Ok(go) => go == (model_json@.len() > 0) && (go ==> !self.misses(
                    model_json@,
                    in_archive,
                )),
                Err(e) => model_json@.len() > 0 && self.misses(model_json@, in_archive) && e@
                    == LpkErrorView::DecryptionFailed("File not found: "@ + model_json@),
            },
    {
        if model_json.is_empty() {
            return Ok(false);
        }
        match self.check_decrypt(model_json, in_archive) {
            Ok(_) => Ok(true),
            Err(e) => Err(e),
        }
    }

    /// The names of the directories of the characters, in the order of the
    /// manifest.
    pub fn character_directories(&self) -> (names: Vec<String>)
        ensures
            names@.len() == self.manifest().list@.len(),
            forall|i: int|
                0 <= i < names@.len() ==> (#[trigger] names@[i])@ == character_name(
                    self.manifest().list@[i],
                ),
    {
        let mut names: Vec<String> = Vec::new();
        let list = &self.mlve_config.list;
        let mut c: usize = 0;
        while c < list.len()
            invariant
                c <= list.len(),
                list@ == self.manifest().list@,
                names@.len() == c,
                forall|i: int|
                    0 <= i < c ==> (#[trigger] names@[i])@ == character_name(list@[i]),
            decreases list.len() - c,
        {
            let character = &list[c];
            let name: String = if character.character.as_str().is_empty() {
                String::from_str("character")
            } else {
                character.character.clone()
            };
            names.push(name);
            c = c + 1;
        }
        names
    }

    /// The costumes to extract from an archive of a standard type.
    pub fn extract_standard(&self) -> (tasks: Vec<CostumeTask>)
        ensures
            views(tasks@) == standard_tasks(self.manifest().list@),
    {
        let mut tasks: Vec<CostumeTask> = Vec::new();
        let list = &self.mlve_config.list;
        let mut c: usize = 0;
        assert(views(tasks@) =~= Seq::<CostumeTaskView>::empty());
        while c < list.len()
            invariant
                c <= list.len(),
                list@ == self.manifest().list@,
                views(tasks@) == standard_tasks(list@.take(c as int)),
            decreases list.len() - c,
        {
            let character = &list[c];
            let name: String = if character.character.as_str().is_empty() {
                String::from_str("character")
            } else {
                character.character.clone()
            };
            let ghost before = views(tasks@);
            let costumes = &character.costume;
            let mut i: usize = 0;
            while i < costumes.len()
                invariant
                    i <= costumes.len(),
                    name@ == character_name(*character),
                    costumes@ == character.costume@,
                    views(tasks@) == before + costume_tasks(name@, costumes@.take(i as int)),
                decreases costumes.len() - i,
            {
                let costume = &costumes[i];
                let ghost so_far = tasks@;
                proof {
                    assert(costumes@.take(i + 1).drop_last() =~= costumes@.take(i as int));
                    assert(costumes@.take(i + 1).last() == costumes@[i as int]);
                }
                if !costume.path.as_str().is_empty() {
                    let label = concat3(name.as_str(), "_costume_", to_decimal(i as u64).as_str());
                    let task = CostumeTask {
                        path: costume.path.clone(),
                        directory: name.clone(),
                        label,
                    };
                    tasks.push(task);
                    assert(views(tasks@) =~= views(so_far).push(task@));
                }
                i = i + 1;
            }
            proof {
                assert(costumes@.take(costumes@.len() as int) =~= costumes@);
                assert(list@.take(c + 1).drop_last() =~= list@.take(c as int));
                assert(list@.take(c + 1).last() == list@[c as int]);
            }
            c = c + 1;
        }
        assert(list@.take(list@.len() as int) =~= list@);
        tasks
    }

    /// The descriptions to write for the bytes of one model entry: one for
    /// every costume of every character. Where the archive has a costume
    /// and no key policy, the extraction fails.
    pub fn extract_model_json(&self, buffer: &[u8]) -> (r: Result<Vec<OutputFile>, LpkError>)
        ensures
            match r {
                Ok(files) => views(files@) == model_outputs(
                    *self,
                    self.manifest().list@,
                    buffer@,
                ) && (has_policy(self.kind()) || costume_count(self.manifest().list@) == 0),
                Err(e) => costume_count(self.manifest().list@) > 0 && !has_policy(self.kind())
                    && e@ == no_policy(self.kind()),
            },
    {
        let mut files: Vec<OutputFile> = Vec::new();
        let list = &self.mlve_config.list;
        let mut c: usize = 0;
        assert(views(files@) =~= Seq::<OutputFileView>::empty());
        while c < list.len()
            invariant
                c <= list.len(),
                list@ == self.manifest().list@,
                views(files@) == model_outputs(*self, list@.take(c as int), buffer@),
                has_policy(self.kind()) || costume_count(list@.take(c as int)) == 0,
            decreases list.len() - c,
        {
            let character = &list[c];
            let ghost before = views(files@);
            let costumes = &character.costume;
            let mut i: usize = 0;
            proof {
                assert(list@.take(c + 1).drop_last() =~= list@.take(c as int));
                assert(list@.take(c + 1).last() == list@[c as int]);
            }
            while i < costumes.len()
                invariant
                    i <= costumes.len(),
                    costumes@ == character.costume@,
                    c < list.len(),
                    list@ == self.manifest().list@,
                    has_policy(self.kind()) || (costume_count(list@.take(c as int)) == 0 && i
                        == 0),
                    list@.take(c + 1).drop_last() == list@.take(c as int),
                    list@.take(c + 1).last() == *character,
                    views(files@) == before + costume_outputs(
                        *self,
                        character.character@,
                        costumes@.take(i as int),
                        buffer@,
                    ),
                decreases costumes.len() - i,
            {
                let costume = &costumes[i];
                let ghost so_far = files@;
                match self.decrypt_data(costume.path.as_str(), buffer) {
                    Err(e) => {
                        proof {
                            lemma_costume_count_grows(list@, c + 1);
                        }
                        return Err(e);
                    },
                    Ok(data) => {
                        let mut name = concat3(
                            character.character.as_str(),
                            "-",
                            costume.name.as_str(),
                        );
                        name.append(".model3.json");
                        let file = OutputFile { name, data };
                        files.push(file);
                        assert(views(files@) =~= views(so_far).push(file@));
                        assert(costume_outputs(
                            *self,
                            character.character@,
                            costumes@.take(i + 1),
                            buffer@,
                        ) =~= costume_outputs(
                            *self,
                            character.character@,
                            costumes@.take(i as int),
                            buffer@,
                        ).push(file@));
                    },
                }
                i = i + 1;
            }
            proof {
                assert(costumes@.take(costumes@.len() as int) =~= costumes@);
            }
            c = c + 1;
        }
        assert(list@.take(list@.len() as int) =~= list@);
        Ok(files)
    }

    /// What becomes of an entry of an archive of an older type whose name
    /// has the given ending.
    pub fn extract_legacy(&self, extension: Option<&str>) -> (r: LegacyAction)
        ensures
            r == legacy_action(
                match extension {
                    Some(ending) => Some(ending@),
                    None => None,
                },
            ),
    {
        match extension {
            None => LegacyAction::Skip,
            Some(ending) => {
                if str_eq(ending, "json") || str_eq(ending, "mlve") || str_eq(ending, "txt") {
                    LegacyAction::Copy
                } else {
                    LegacyAction::Decrypt
                }
            },
        }
    }

    /// The entries of the archive that a model refers to, with the names
    /// under which to write them.
    pub fn process_model_references(&self, model: &Live2dConfig) -> (r: Vec<Reference>)
        ensures
            views(r@) == model_references(*model, self.entries()),
    {
        let mut references: Vec<Reference> = Vec::new();
        assert(views(references@) =~= Seq::<ReferenceView>::empty());
        if is_encrypted_file(model.model.as_str()) {
            let reference = Reference {
                entry: model.model.clone(),
                output: String::from_str("character.moc3"),
                required: true,
            };
            references.push(reference);
            assert(views(references@) =~= seq![reference@]);
        }
        let ghost head = views(references@);
        let textures = &model.textures;
        let number = self.entrys.len();
        let mut i: usize = 0;
        while i < textures.len()
            invariant
                i <= textures.len(),
                textures@ == model.textures@,
                number == self.entries(),
                views(references@) == head + texture_references(
                    textures@.take(i as int),
                    number as nat,
                ),
            decreases textures.len() - i,
        {
            let texture = &textures[i];
            let ghost so_far = references@;
            proof {
                assert(textures@.take(i + 1).drop_last() =~= textures@.take(i as int));
                assert(textures@.take(i + 1).last() == textures@[i as int]);
            }
            if is_encrypted_file(texture.as_str()) {
                let reference = Reference {
                    entry: texture.clone(),
                    output: concat3("texture", to_decimal(number as u64).as_str(), ".png"),
                    required: false,
                };
                references.push(reference);
                assert(views(references@) =~= views(so_far).push(reference@));
            }
            i = i + 1;
        }
        assert(textures@.take(textures@.len() as int) =~= textures@);
        references
    }
}

/// The text of an optional string.
pub open spec fn opt_view(text: Option<String>) -> Option<Seq<char>> {
    match text {
        Some(text) => Some(text@),
        None => None,
    }
}

/// A longer list of characters has no fewer costumes.
pub proof fn lemma_costume_count_grows(list: Seq<LpkCharacter>, upto: int)
    requires
        0 <= upto <= list.len(),
    ensures
        costume_count(list.take(upto)) <= costume_count(list),
    decreases list.len() - upto,
{
    if upto < list.len() {
        lemma_costume_count_grows(list, upto + 1);
        assert(list.take(upto + 1).drop_last() =~= list.take(upto));
    } else {
        assert(list.take(upto) =~= list);
    }
}

} // verus!
