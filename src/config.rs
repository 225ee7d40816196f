//! The persisted app-chain record, its schema tag, and its encoding as a TOML
//! table.

use vstd::prelude::*;

use crate::da::DALayer;

verus! {

/// Rollup execution mode. Only one mode is active; others are reserved.
#[derive(Debug, Clone, Copy, PartialEq, Eq, Structural)]
pub enum RollupMode {
    Sovereign,
}

/// The schema revisions of `AppChainConfig` that this library reads.
#[derive(Debug, Clone, Copy, PartialEq, Eq, Structural)]
pub enum ConfigVersion {
    Version1,
}

impl RollupMode {
    pub open spec fn spec_name(self) -> Seq<char> {
        match self {
            RollupMode::Sovereign => "Sovereign"@,
        }
    }

    pub open spec fn spec_from_name(s: Seq<char>) -> Option<RollupMode> {
        if s == "Sovereign"@ {
            Some(RollupMode::Sovereign)
        } else {
            None
        }
    }

    /// The mode's name, as shown and as stored.
    pub fn name(&self) -> (r: &'static str)
        ensures
            r@ == self.spec_name(),
    {
        match self {
            RollupMode::Sovereign => "Sovereign",
        }
    }

    /// The mode with the given name, if there is one.
    pub fn from_name(s: &str) -> (r: Option<RollupMode>)
        ensures
            r == RollupMode::spec_from_name(s@),
    {
        if str_eq(s, "Sovereign") {
            Some(RollupMode::Sovereign)
        } else {
            None
        }
    }
}

impl ConfigVersion {
    pub open spec fn spec_tag(self) -> Seq<char> {
        match self {
            ConfigVersion::Version1 => "Version1"@,
        }
    }

    /// The table of recognized revisions: the revision a stored tag names, if
    /// this library knows it.
    pub open spec fn spec_from_tag(s: Seq<char>) -> Option<ConfigVersion> {
        if s == "Version1"@ {
            Some(ConfigVersion::Version1)
        } else {
            None
        }
    }

    /// The tag under which this revision is stored.
    pub fn tag(&self) -> (r: &'static str)
        ensures
            r@ == self.spec_tag(),
    {
        match self {
            ConfigVersion::Version1 => "Version1",
        }
    }

    /// The recognized revision with the given tag; an unknown tag gives `None`,
    /// never a default revision.
    pub fn from_tag(s: &str) -> (r: Option<ConfigVersion>)
        ensures
            r == ConfigVersion::spec_from_tag(s@),
    {
        if str_eq(s, "Version1") {
            Some(ConfigVersion::Version1)
        } else {
            None
        }
    }
}

/// Whether two strings hold the same characters.
pub fn str_eq(a: &str, b: &str) -> (r: bool)
    ensures
        r == (a@ == b@),
{
    let n = a.unicode_len();
    if n != b.unicode_len() {
        return false;
    }
    let mut i: usize = 0;
    while i < n
        invariant
            n == a@.len(),
            n == b@.len(),
            i <= n,
            forall|j: int| 0 <= j < i ==> a@[j] == b@[j],
        decreases n - i,
    {
        if a.get_char(i) != b.get_char(i) {
            return false;
        }
        i = i + 1;
    }
    assert(a@ =~= b@);
    true
}

/// A string, integer or boolean value of a TOML table, as this library reads
/// and writes them.
#[derive(Debug, Clone, PartialEq, Eq)]
pub enum TomlField {
    Str(String),
    Int(i64),
    Bool(bool),
}

/// What a `TomlField` holds.
pub enum FieldModel {
    Str(Seq<char>),
    Int(int),
    Bool(bool),
}

impl View for TomlField {
    type V = FieldModel;

    open spec fn view(&self) -> FieldModel {
        match self {
            TomlField::Str(s) => FieldModel::Str(s@),
            TomlField::Int(i) => FieldModel::Int(*i as int),
            TomlField::Bool(b) => FieldModel::Bool(*b),
        }
    }
}

#[verifier::external_type_specification]
#[verifier::external_body]
#[verifier::reject_recursive_types(K)]
#[verifier::reject_recursive_types(V)]
pub struct ExTomlMap<K, V>(toml::map::Map<K, V>);

#[verifier::external_type_specification]
#[verifier::external_body]
pub struct ExTomlValue(toml::Value);

#[verifier::external_type_specification]
#[verifier::external_body]
pub struct ExTomlSerError(toml::ser::Error);

#[verifier::external_type_specification]
#[verifier::external_body]
pub struct ExTomlDeError(toml::de::Error);

/// The entries of a TOML table whose value is a string, an integer or a
/// boolean, keyed by name; entries holding other kinds of value are left out.
pub uninterp spec fn table_entries(t: toml::Table) -> Map<Seq<char>, FieldModel>;

/// Every key of a TOML table, whatever kind of value it holds.
pub uninterp spec fn table_keys(t: toml::Table) -> Set<Seq<char>>;

/// The TOML text toml writes for a table whose entries are all strings,
/// integers and booleans. Its tables keep their keys sorted, so the text
/// depends on the entries alone.
pub uninterp spec fn toml_text(m: Map<Seq<char>, FieldModel>) -> Seq<char>;

/// The string, integer and boolean entries of the table that toml reads from
/// a text, or `None` where the text is not a TOML document.
pub uninterp spec fn toml_scalars(s: Seq<char>) -> Option<Map<Seq<char>, FieldModel>>;

/// Relies on toml::map::Map::new: a new table is empty.
#[verifier::external_body]
fn new_table() -> (r: toml::Table)
    ensures
        table_entries(r) =~= Map::empty(),
        table_keys(r) =~= Set::empty(),
{
    toml::Table::new()
}

/// Relies on toml::map::Map::insert: the key now holds the value, whatever it
/// held before, and every other key is unchanged.
#[verifier::external_body]
fn table_insert(t: &mut toml::Table, k: String, v: TomlField)
    ensures
        table_entries(*final(t)) == table_entries(*old(t)).insert(k@, v@),
        table_keys(*final(t)) == table_keys(*old(t)).insert(k@),
{
    let value = match v {
        TomlField::Str(s) => toml::Value::String(s),
        TomlField::Int(i) => toml::Value::Integer(i),
        TomlField::Bool(b) => toml::Value::Boolean(b),
    };
    t.insert(k, value);
}

/// Relies on toml::map::Map::get: the value under the key, if any.
#[verifier::external_body]
fn table_get(t: &toml::Table, k: &str) -> (r: Option<TomlField>)
    ensures
        r is Some <==> table_entries(*t).contains_key(k@),
        r matches Some(f) ==> f@ == table_entries(*t)[k@],
{
    match t.get(k) {
        Some(toml::Value::String(s)) => Some(TomlField::Str(s.clone())),
        Some(toml::Value::Integer(i)) => Some(TomlField::Int(*i)),
        Some(toml::Value::Boolean(b)) => Some(TomlField::Bool(*b)),
        _ => None,
    }
}

/// Relies on toml::to_string: the table written out as TOML text. The
/// serializer fails only on values it cannot write (dates, out-of-range
/// numbers, unsupported types), none of which is a string, an `i64` or a
/// boolean.
#[verifier::external_body]
fn table_to_string(t: &toml::Table) -> (r: Result<String, toml::ser::Error>)
    ensures
        r is Ok || table_entries(*t).dom() != table_keys(*t),
        r matches Ok(s) ==> (table_entries(*t).dom() == table_keys(*t) ==> s@ == toml_text(
            table_entries(*t),
        )),
{
    toml::to_string(t)
}

/// Relies on toml::from_str: TOML text read into a table, or the parser's
/// error where the text is not a TOML document.
#[verifier::external_body]
fn table_from_str(s: &str) -> (r: Result<toml::Table, toml::de::Error>)
    ensures
        r is Ok <==> toml_scalars(s@) is Some,
        r matches Ok(t) ==> toml_scalars(s@) == Some(table_entries(t)),
{
    toml::from_str::<toml::Table>(s)
}

/// A field of `AppChainConfig`, as named in the stored table.
#[derive(Debug, Clone, Copy, PartialEq, Eq, Structural)]
pub enum ConfigField {
    AppChain,
    BasePath,
    ChainId,
    Mode,
    DaLayer,
    BlockTime,
    DisableFees,
    FeeToken,
    MadaraVersion,
    ConfigVersion,
}

/// Why a record could not be written out or read back.
#[derive(Debug)]
pub enum ConfigError {
    /// The TOML writer refused the table.
    Serialize(toml::ser::Error),
    /// The text is not TOML.
    Parse(toml::de::Error),
    /// A field is missing, has the wrong kind of value, or names nothing known.
    InvalidField(ConfigField),
    /// The `config_version` tag names no revision this library knows.
    UnrecognizedVersion,
    /// `block_time` is beyond the integers TOML can hold.
    BlockTimeOutOfRange,
}

/// The persisted descriptor of one app-chain instance.
#[derive(Debug, Clone)]
pub struct AppChainConfig {
    pub app_chain: String,
    pub base_path: String,
    pub chain_id: String,
    pub mode: RollupMode,
    pub da_layer: DALayer,
    pub block_time: u64,
    pub disable_fees: bool,
    pub fee_token: String,
    /// Commit hash of the node software build the chain runs.
    pub madara_version: String,
    /// Schema revision of the record, so that added or removed attributes are
    /// read by an explicit rule.
    pub config_version: ConfigVersion,
}

/// What an `AppChainConfig` holds.
pub struct ConfigModel {
    pub app_chain: Seq<char>,
    pub base_path: Seq<char>,
    pub chain_id: Seq<char>,
    pub mode: RollupMode,
    pub da_layer: DALayer,
    pub block_time: int,
    pub disable_fees: bool,
    pub fee_token: Seq<char>,
    pub madara_version: Seq<char>,
    pub config_version: ConfigVersion,
}

impl View for AppChainConfig {
    type V = ConfigModel;

    open spec fn view(&self) -> ConfigModel {
        ConfigModel {
            app_chain: self.app_chain@,
            base_path: self.base_path@,
            chain_id: self.chain_id@,
            mode: self.mode,
            da_layer: self.da_layer,
            block_time: self.block_time as int,
            disable_fees: self.disable_fees,
            fee_token: self.fee_token@,
            madara_version: self.madara_version@,
            config_version: self.config_version,
        }
    }
}

/// Whether an app-chain name can stand as one component of a directory path:
/// not empty, not `.` or `..`, and without separators or NUL.
pub open spec fn spec_path_safe(s: Seq<char>) -> bool {
    &&& s.len() > 0
    &&& s != "."@
    &&& s != ".."@
    &&& forall|i: int| 0 <= i < s.len() ==> s[i] != '/' && s[i] != '\\' && s[i] != '\0'
}

impl ConfigModel {
    /// The record's invariant: its name can build its home directory, and
    /// blocks take a positive number of seconds.
    pub open spec fn wf(self) -> bool {
        spec_path_safe(self.app_chain) && self.block_time > 0
    }
}

/// Whether `s` satisfies `spec_path_safe`.
pub fn is_path_safe(s: &str) -> (r: bool)
    ensures
        r == spec_path_safe(s@),
{
    let n = s.unicode_len();
    if n == 0 || str_eq(s, ".") || str_eq(s, "..") {
        return false;
    }
    let mut i: usize = 0;
    while i < n
        invariant
            n == s@.len(),
            i <= n,
            forall|j: int| 0 <= j < i ==> s@[j] != '/' && s@[j] != '\\' && s@[j] != '\0',
        decreases n - i,
    {
        let ch = s.get_char(i);
        if ch == '/' || ch == '\\' || ch == '\0' {
            return false;
        }
        i = i + 1;
    }
    true
}

/// The table entries a record is stored as.
pub open spec fn spec_entries(c: ConfigModel) -> Map<Seq<char>, FieldModel> {
    map![
        "app_chain"@ => FieldModel::Str(c.app_chain),
        "base_path"@ => FieldModel::Str(c.base_path),
        "chain_id"@ => FieldModel::Str(c.chain_id),
        "mode"@ => FieldModel::Str(c.mode.spec_name()),
        "da_layer"@ => FieldModel::Str(c.da_layer.spec_name()),
        "block_time"@ => FieldModel::Int(c.block_time),
        "disable_fees"@ => FieldModel::Bool(c.disable_fees),
        "fee_token"@ => FieldModel::Str(c.fee_token),
        "madara_version"@ => FieldModel::Str(c.madara_version),
        "config_version"@ => FieldModel::Str(c.config_version.spec_tag()),
    ]
}

/// The string under `k`, if `k` holds one.
pub open spec fn spec_str_at(m: Map<Seq<char>, FieldModel>, k: Seq<char>) -> Option<Seq<char>> {
    if m.contains_key(k) && m[k] is Str {
        Some(m[k]->Str_0)
    } else {
        None
    }
}

/// The integer under `k`, if `k` holds one.
pub open spec fn spec_int_at(m: Map<Seq<char>, FieldModel>, k: Seq<char>) -> Option<int> {
    if m.contains_key(k) && m[k] is Int {
        Some(m[k]->Int_0)
    } else {
        None
    }
}

/// The boolean under `k`, if `k` holds one.
pub open spec fn spec_bool_at(m: Map<Seq<char>, FieldModel>, k: Seq<char>) -> Option<bool> {
    if m.contains_key(k) && m[k] is Bool {
        Some(m[k]->Bool_0)
    } else {
        None
    }
}

/// The record stored in table entries, or the first problem found. The schema
/// tag is read first, so that an unknown revision is never read as a known one;
/// the fields follow in declaration order. Keys that no field uses are ignored.
/// A record that breaks the invariant is refused at its first bad field.
pub open spec fn spec_decode(m: Map<Seq<char>, FieldModel>) -> Result<ConfigModel, ConfigError> {
    let tag = spec_str_at(m, "config_version"@);
    let mode = spec_str_at(m, "mode"@);
    let layer = spec_str_at(m, "da_layer"@);
    let block_time = spec_int_at(m, "block_time"@);
    if tag is None {
        Err(ConfigError::InvalidField(ConfigField::ConfigVersion))
    } else if ConfigVersion::spec_from_tag(tag->0) is None {
        Err(ConfigError::UnrecognizedVersion)
    } else if spec_str_at(m, "app_chain"@) is None || !spec_path_safe(
        spec_str_at(m, "app_chain"@)->0,
    ) {
        Err(ConfigError::InvalidField(ConfigField::AppChain))
    } else if spec_str_at(m, "base_path"@) is None {
        Err(ConfigError::InvalidField(ConfigField::BasePath))
    } else if spec_str_at(m, "chain_id"@) is None {
        Err(ConfigError::InvalidField(ConfigField::ChainId))
    } else if mode is None || RollupMode::spec_from_name(mode->0) is None {
        Err(ConfigError::InvalidField(ConfigField::Mode))
    } else if layer is None || DALayer::spec_from_name(layer->0) is None {
        Err(ConfigError::InvalidField(ConfigField::DaLayer))
    } else if block_time is None || block_time->0 <= 0 {
        Err(ConfigError::InvalidField(ConfigField::BlockTime))
    } else if spec_bool_at(m, "disable_fees"@) is None {
        Err(ConfigError::InvalidField(ConfigField::DisableFees))
    } else if spec_str_at(m, "fee_token"@) is None {
        Err(ConfigError::InvalidField(ConfigField::FeeToken))
    } else if spec_str_at(m, "madara_version"@) is None {
        Err(ConfigError::InvalidField(ConfigField::MadaraVersion))
    } else {
        Ok(
            ConfigModel {
                app_chain: spec_str_at(m, "app_chain"@)->0,
                base_path: spec_str_at(m, "base_path"@)->0,
                chain_id: spec_str_at(m, "chain_id"@)->0,
                mode: RollupMode::spec_from_name(mode->0)->0,
                da_layer: DALayer::spec_from_name(layer->0)->0,
                block_time: block_time->0,
                disable_fees: spec_bool_at(m, "disable_fees"@)->0,
                fee_token: spec_str_at(m, "fee_token"@)->0,
                madara_version: spec_str_at(m, "madara_version"@)->0,
                config_version: ConfigVersion::spec_from_tag(tag->0)->0,
            },
        )
    }
}

/// Reading back the entries a well-formed record is stored as gives the same
/// record, for every such record whose `block_time` TOML can hold.
pub proof fn lemma_entries_round_trip(c: ConfigModel)
    requires
        c.wf(),
        c.block_time <= i64::MAX,
    ensures
        spec_decode(spec_entries(c)) == Ok::<ConfigModel, ConfigError>(c),
{
    reveal_strlit("app_chain");
    assert("app_chain"@.len() == 9 && "app_chain"@[0] == 'a');
    reveal_strlit("base_path");
    assert("base_path"@.len() == 9 && "base_path"@[0] == 'b');
    reveal_strlit("chain_id");
    assert("chain_id"@.len() == 8 && "chain_id"@[0] == 'c');
    reveal_strlit("mode");
    assert("mode"@.len() == 4 && "mode"@[0] == 'm');
    reveal_strlit("da_layer");
    assert("da_layer"@.len() == 8 && "da_layer"@[0] == 'd');
    reveal_strlit("block_time");
    assert("block_time"@.len() == 10 && "block_time"@[0] == 'b');
    reveal_strlit("disable_fees");
    assert("disable_fees"@.len() == 12 && "disable_fees"@[0] == 'd');
    reveal_strlit("fee_token");
    assert("fee_token"@.len() == 9 && "fee_token"@[0] == 'f');
    reveal_strlit("madara_version");
    assert("madara_version"@.len() == 14 && "madara_version"@[0] == 'm');
    reveal_strlit("config_version");
    assert("config_version"@.len() == 14 && "config_version"@[0] == 'c');
    reveal_strlit("Avail");
    reveal_strlit("NoDA");
    assert("Avail"@.len() == 5 && "NoDA"@.len() == 4);
    assert(RollupMode::spec_from_name(c.mode.spec_name()) == Some(c.mode));
    assert(DALayer::spec_from_name(c.da_layer.spec_name()) == Some(c.da_layer));
    assert(ConfigVersion::spec_from_tag(c.config_version.spec_tag()) == Some(c.config_version));
    let m = spec_entries(c);
    assert(spec_str_at(m, "config_version"@) == Some(c.config_version.spec_tag()));
    assert(spec_str_at(m, "mode"@) == Some(c.mode.spec_name()));
    assert(spec_str_at(m, "da_layer"@) == Some(c.da_layer.spec_name()));
    assert(spec_int_at(m, "block_time"@) == Some(c.block_time));
    assert(spec_bool_at(m, "disable_fees"@) == Some(c.disable_fees));
    assert(spec_str_at(m, "app_chain"@) == Some(c.app_chain));
    assert(spec_str_at(m, "base_path"@) == Some(c.base_path));
    assert(spec_str_at(m, "chain_id"@) == Some(c.chain_id));
    assert(spec_str_at(m, "fee_token"@) == Some(c.fee_token));
    assert(spec_str_at(m, "madara_version"@) == Some(c.madara_version));
}

/// A stored schema tag that names no known revision is rejected as an
/// unrecognized version, whatever the other entries hold.
pub proof fn lemma_unknown_version_rejected(m: Map<Seq<char>, FieldModel>)
    requires
        spec_str_at(m, "config_version"@) is Some,
        ConfigVersion::spec_from_tag(spec_str_at(m, "config_version"@)->0) is None,
    ensures
        spec_decode(m) == Err::<ConfigModel, ConfigError>(ConfigError::UnrecognizedVersion),
{
}

fn get_str(t: &toml::Table, k: &str) -> (r: Option<String>)
    ensures
        r matches Some(s) ==> spec_str_at(table_entries(*t), k@) == Some(s@),
        r is None ==> spec_str_at(table_entries(*t), k@) is None,
{
    match table_get(t, k) {
        Some(TomlField::Str(s)) => Some(s),
        _ => None,
    }
}

fn get_int(t: &toml::Table, k: &str) -> (r: Option<i64>)
    ensures
        r matches Some(i) ==> spec_int_at(table_entries(*t), k@) == Some(i as int),
        r is None ==> spec_int_at(table_entries(*t), k@) is None,
{
    match table_get(t, k) {
        Some(TomlField::Int(i)) => Some(i),
        _ => None,
    }
}

fn get_bool(t: &toml::Table, k: &str) -> (r: Option<bool>)
    ensures
        r == spec_bool_at(table_entries(*t), k@),
{
    match table_get(t, k) {
        Some(TomlField::Bool(b)) => Some(b),
        _ => None,
    }
}

impl AppChainConfig {
    /// The record as a TOML table, one entry per field; enumerations are stored
    /// by name. Fails only where `block_time` exceeds TOML's integers.
    pub fn to_table(&self) -> (r: Result<toml::Table, ConfigError>)
        ensures
            r is Ok <==> self.block_time <= i64::MAX,
            r matches Ok(t) ==> table_entries(t) == spec_entries(self@) && table_entries(t).dom()
                == table_keys(t),
            r matches Err(e) ==> e is BlockTimeOutOfRange,
    {
        if self.block_time > i64::MAX as u64 {
            return Err(ConfigError::BlockTimeOutOfRange);
        }
        let mut t = new_table();
        table_insert(&mut t, String::from_str("app_chain"), TomlField::Str(self.app_chain.clone()));
        table_insert(&mut t, String::from_str("base_path"), TomlField::Str(self.base_path.clone()));
        table_insert(&mut t, String::from_str("chain_id"), TomlField::Str(self.chain_id.clone()));
        table_insert(&mut t, String::from_str("mode"), TomlField::Str(String::from_str(self.mode.name())));
        table_insert(
            &mut t,
            String::from_str("da_layer"),
            TomlField::Str(String::from_str(self.da_layer.name())),
        );
        table_insert(&mut t, String::from_str("block_time"), TomlField::Int(self.block_time as i64));
        table_insert(&mut t, String::from_str("disable_fees"), TomlField::Bool(self.disable_fees));
        table_insert(&mut t, String::from_str("fee_token"), TomlField::Str(self.fee_token.clone()));
        table_insert(
            &mut t,
            String::from_str("madara_version"),
            TomlField::Str(self.madara_version.clone()),
        );
        table_insert(
            &mut t,
            String::from_str("config_version"),
            TomlField::Str(String::from_str(self.config_version.tag())),
        );
        Ok(t)
    }

    /// Whether the record satisfies its invariant.
    pub fn is_well_formed(&self) -> (r: bool)
        ensures
            r == self@.wf(),
    {
        is_path_safe(self.app_chain.as_str()) && self.block_time > 0
    }

    /// The record as TOML text: the table of `to_table`, written out by toml.
    pub fn to_toml(&self) -> (r: Result<String, ConfigError>)
        ensures
            self.block_time > i64::MAX ==> r matches Err(ConfigError::BlockTimeOutOfRange),
            self.block_time <= i64::MAX ==> (r matches Ok(s) && s@ == toml_text(
                spec_entries(self@),
            )),
    {
        let t = match self.to_table() {
            Ok(t) => t,
            Err(e) => return Err(e),
        };
        match table_to_string(&t) {
            Ok(text) => Ok(text),
            Err(e) => Err(ConfigError::Serialize(e)),
        }
    }

    /// The record stored in TOML text: a parse error where the text is not
    /// TOML, else what `spec_decode` gives on the entries toml reads from it.
    pub fn from_toml(s: &str) -> (r: Result<AppChainConfig, ConfigError>)
        ensures
            r matches Err(ConfigError::Parse(_)) <==> toml_scalars(s@) is None,
            toml_scalars(s@) matches Some(m) ==> (r matches Ok(c) ==> spec_decode(m) == Ok::<
                ConfigModel,
                ConfigError,
            >(c@)),
            toml_scalars(s@) matches Some(m) ==> (r matches Err(e) ==> spec_decode(m) == Err::<
                ConfigModel,
                ConfigError,
            >(e)),
    {
        match table_from_str(s) {
            Ok(t) => AppChainConfig::from_table(&t),
            Err(e) => Err(ConfigError::Parse(e)),
        }
    }

    /// The record stored in a TOML table: exactly what `spec_decode` gives on
    /// the table's entries.
    pub fn from_table(t: &toml::Table) -> (r: Result<AppChainConfig, ConfigError>)
        ensures
            r matches Ok(c) ==> c@.wf(),
            r matches Ok(c) ==> spec_decode(table_entries(*t)) == Ok::<ConfigModel, ConfigError>(c@),
            r matches Err(e) ==> spec_decode(table_entries(*t)) == Err::<ConfigModel, ConfigError>(e),
    {
        let tag = match get_str(t, "config_version") {
            Some(s) => s,
            None => return Err(ConfigError::InvalidField(ConfigField::ConfigVersion)),
        };
        let config_version = match ConfigVersion::from_tag(tag.as_str()) {
            Some(v) => v,
            None => return Err(ConfigError::UnrecognizedVersion),
        };
        let app_chain = match get_str(t, "app_chain") {
            Some(s) => s,
            None => return Err(ConfigError::InvalidField(ConfigField::AppChain)),
        };
        if !is_path_safe(app_chain.as_str()) {
            return Err(ConfigError::InvalidField(ConfigField::AppChain));
        }
        let base_path = match get_str(t, "base_path") {
            Some(s) => s,
            None => return Err(ConfigError::InvalidField(ConfigField::BasePath)),
        };
        let chain_id = match get_str(t, "chain_id") {
            Some(s) => s,
            None => return Err(ConfigError::InvalidField(ConfigField::ChainId)),
        };
        let mode = match get_str(t, "mode") {
            Some(s) => match RollupMode::from_name(s.as_str()) {
                Some(m) => m,
                None => return Err(ConfigError::InvalidField(ConfigField::Mode)),
            },
            None => return Err(ConfigError::InvalidField(ConfigField::Mode)),
        };
        let da_layer = match get_str(t, "da_layer") {
            Some(s) => match DALayer::from_name(s.as_str()) {
                Some(l) => l,
                None => return Err(ConfigError::InvalidField(ConfigField::DaLayer)),
            },
            None => return Err(ConfigError::InvalidField(ConfigField::DaLayer)),
        };
        let block_time: u64 = match get_int(t, "block_time") {
            Some(i) => {
                if i <= 0 {
                    return Err(ConfigError::InvalidField(ConfigField::BlockTime));
                }
                i as u64
            },
            None => return Err(ConfigError::InvalidField(ConfigField::BlockTime)),
        };
        let disable_fees = match get_bool(t, "disable_fees") {
            Some(b) => b,
            None => return Err(ConfigError::InvalidField(ConfigField::DisableFees)),
        };
        let fee_token = match get_str(t, "fee_token") {
            Some(s) => s,
            None => return Err(ConfigError::InvalidField(ConfigField::FeeToken)),
        };
        let madara_version = match get_str(t, "madara_version") {
            Some(s) => s,
            None => return Err(ConfigError::InvalidField(ConfigField::MadaraVersion)),
        };
        Ok(
            AppChainConfig {
                app_chain,
                base_path,
                chain_id,
                mode,
                da_layer,
                block_time,
                disable_fees,
                fee_token,
                madara_version,
                config_version,
            },
        )
    }
}

} // verus!
