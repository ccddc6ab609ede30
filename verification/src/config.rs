//! Server configuration in layers: defaults, then an optional file, then
//! the environment, each layer overriding the settings it names.

use vstd::prelude::*;
use vstd::string::*;
use crate::service::DEFAULT_PAGE_CEILING;
use crate::text::{all_digits, decimal, decimal_value, format_decimal, parse_decimal, text_of};

verus! {

/// The port that the server listens on where no layer names one.
pub const DEFAULT_PORT: u16 = 50051;

/// Where the server listens.
#[derive(Clone, Debug, PartialEq, Eq)]
pub struct ServerConfig {
    pub host: String,
    pub port: u16,
}

impl Default for ServerConfig {
    fn default() -> (c: ServerConfig)
        ensures
            c.host@ == "127.0.0.1"@,
            c.port == DEFAULT_PORT,
    {
        ServerConfig { host: String::from_str("127.0.0.1"), port: DEFAULT_PORT }
    }
}

/// The settings of the application.
#[derive(Clone, Debug, PartialEq, Eq)]
pub struct AppConfig {
    pub server: ServerConfig,
    /// The largest page that a listing hands out; 0 sets no ceiling.
    pub page_ceiling: usize,
}

impl Default for AppConfig {
    fn default() -> (c: AppConfig)
        ensures
            c.server.host@ == "127.0.0.1"@,
            c.server.port == DEFAULT_PORT,
            c.page_ceiling == DEFAULT_PAGE_CEILING,
    {
        AppConfig { server: ServerConfig::default(), page_ceiling: DEFAULT_PAGE_CEILING }
    }
}

/// One source of settings: each setting is present or left to the layers
/// below.
#[derive(Clone, Debug, PartialEq, Eq)]
pub struct ConfigLayer {
    pub host: Option<String>,
    pub port: Option<u16>,
    pub page_ceiling: Option<usize>,
}

/// The value of one setting: the upper layer's if it names one, else the
/// lower layer's, else the default.
pub open spec fn layered<V>(upper: Option<V>, lower: Option<V>, default: V) -> V {
    match upper {
        Some(v) => v,
        None => match lower {
            Some(v) => v,
            None => default,
        },
    }
}

/// The host that a layer names, as text.
pub open spec fn host_text(layer: Option<ConfigLayer>) -> Option<Seq<char>> {
    match layer {
        Some(l) => match l.host {
            Some(h) => Some(h@),
            None => None,
        },
        None => None,
    }
}

/// The port that a layer names.
pub open spec fn port_of(layer: Option<ConfigLayer>) -> Option<u16> {
    match layer {
        Some(l) => l.port,
        None => None,
    }
}

/// The page ceiling that a layer names.
pub open spec fn ceiling_of(layer: Option<ConfigLayer>) -> Option<usize> {
    match layer {
        Some(l) => l.page_ceiling,
        None => None,
    }
}

/// The text of a listening address: the host, a colon and the port in
/// decimal.
pub open spec fn address_text(c: ServerConfig) -> Seq<char> {
    c.host@ + ":"@ + decimal(c.port as nat)
}

/// One source of settings as it is read: each setting is a text, or left
/// to the layers below.
#[derive(Clone, Debug, PartialEq, Eq)]
pub struct RawLayer {
    pub host: Option<String>,
    pub port: Option<String>,
    pub page_ceiling: Option<String>,
}

/// Why a configuration was refused; each variant carries the text that was
/// refused.
#[derive(Clone, Debug, PartialEq, Eq)]
pub enum ConfigError {
    /// The port is no decimal number from 0 to 65535.
    InvalidPort(String),
    /// The page ceiling is no decimal number that fits a `usize`.
    InvalidPageCeiling(String),
    /// A line of a settings file is not empty and has no `=`.
    MalformedLine(String),
}

/// The upper text if there is one, else the lower.
pub open spec fn pick(upper: Option<Seq<char>>, lower: Option<Seq<char>>) -> Option<Seq<char>> {
    match upper {
        Some(t) => Some(t),
        None => lower,
    }
}

/// The port that a text denotes: a non-empty run of decimal digits whose
/// value is at most 65535. `None` for every other text.
pub open spec fn port_of_text(t: Seq<char>) -> Option<u16> {
    if all_digits(t) && decimal_value(t) <= 65535 {
        Some(decimal_value(t) as u16)
    } else {
        None
    }
}

/// The page ceiling that a text denotes: a non-empty run of decimal digits
/// whose value fits a `usize`. `None` for every other text.
pub open spec fn ceiling_of_text(t: Seq<char>) -> Option<usize> {
    if all_digits(t) && decimal_value(t) <= usize::MAX {
        Some(decimal_value(t) as usize)
    } else {
        None
    }
}

/// The host text of an optional raw layer.
pub open spec fn raw_host(layer: Option<RawLayer>) -> Option<Seq<char>> {
    match layer {
        Some(l) => text_of(l.host),
        None => None,
    }
}

/// The port text of an optional raw layer.
pub open spec fn raw_port(layer: Option<RawLayer>) -> Option<Seq<char>> {
    match layer {
        Some(l) => text_of(l.port),
        None => None,
    }
}

/// The page ceiling text of an optional raw layer.
pub open spec fn raw_ceiling(layer: Option<RawLayer>) -> Option<Seq<char>> {
    match layer {
        Some(l) => text_of(l.page_ceiling),
        None => None,
    }
}

/// What loading the layers gives. The settings are merged first, the
/// environment over the file. A merged port text that denotes no port
/// refuses the whole configuration, and so does, after it, a merged page
/// ceiling text that denotes none; no default stands in for a refused
/// text. Otherwise each setting is the merged one, or the default where no
/// layer names it.
pub open spec fn loads(file: Option<RawLayer>, environment: RawLayer, r: Result<
    AppConfig,
    ConfigError,
>) -> bool {
    let host = pick(text_of(environment.host), raw_host(file));
    let port = pick(text_of(environment.port), raw_port(file));
    let ceiling = pick(text_of(environment.page_ceiling), raw_ceiling(file));
    let port_bad = port.is_some() && port_of_text(port.unwrap()).is_none();
    let ceiling_bad = ceiling.is_some() && ceiling_of_text(ceiling.unwrap()).is_none();
    match r {
        Err(ConfigError::InvalidPort(t)) => port_bad && port == Some(t@),
        Err(ConfigError::InvalidPageCeiling(t)) => !port_bad && ceiling_bad && ceiling == Some(t@),
        Err(ConfigError::MalformedLine(_)) => false,
        Ok(c) => {
            &&& !port_bad
            &&& !ceiling_bad
            &&& c.server.host@ == (match host {
                Some(h) => h,
                None => "127.0.0.1"@,
            })
            &&& c.server.port == (match port {
                Some(p) => port_of_text(p).unwrap(),
                None => DEFAULT_PORT,
            })
            &&& c.page_ceiling == (match ceiling {
                Some(t) => ceiling_of_text(t).unwrap(),
                None => DEFAULT_PAGE_CEILING,
            })
        },
    }
}

/// Whether `i` is the place of the first `=` of the line.
pub open spec fn is_first_equals(line: Seq<char>, i: int) -> bool {
    &&& 0 <= i < line.len()
    &&& line[i] == '='
    &&& forall|j: int| 0 <= j < i ==> #[trigger] line[j] != '='
}

/// Whether the line has an `=`.
pub open spec fn has_equals(line: Seq<char>) -> bool {
    exists|i: int| 0 <= i < line.len() && #[trigger] line[i] == '='
}

/// What a setting of the given key and value makes of a layer: the keys
/// `server.host`, `server.port` and `page_ceiling` set their text; any
/// other key leaves the layer as it is.
pub open spec fn setting_applied(
    before: RawLayer,
    key: Seq<char>,
    value: Seq<char>,
    after: RawLayer,
) -> bool {
    if key == "server.host"@ {
        text_of(after.host) == Some(value) && after.port == before.port && after.page_ceiling
            == before.page_ceiling
    } else if key == "server.port"@ {
        text_of(after.port) == Some(value) && after.host == before.host && after.page_ceiling
            == before.page_ceiling
    } else if key == "page_ceiling"@ {
        text_of(after.page_ceiling) == Some(value) && after.host == before.host && after.port
            == before.port
    } else {
        after == before
    }
}

/// What one line of a settings file makes of a layer. An empty line changes
/// nothing. A line with an `=` is a setting: the key is what stands before
/// the first `=`, the value what stands after it, both taken as they are.
/// Any other line is refused and changes nothing.
pub open spec fn line_absorbed(
    before: RawLayer,
    line: Seq<char>,
    after: RawLayer,
    r: Result<(), ConfigError>,
) -> bool {
    if line.len() == 0 {
        r.is_ok() && after == before
    } else if !has_equals(line) {
        after == before && (match r {
            Err(ConfigError::MalformedLine(t)) => t@ == line,
            _ => false,
        })
    } else {
        r.is_ok() && exists|i: int|
            #[trigger] is_first_equals(line, i) && setting_applied(
                before,
                line.subrange(0, i),
                line.subrange(i + 1, line.len() as int),
                after,
            )
    }
}

impl RawLayer {
    /// A layer that names no setting.
    pub fn empty() -> (l: RawLayer)
        ensures
            l.host.is_none(),
            l.port.is_none(),
            l.page_ceiling.is_none(),
    {
        RawLayer { host: None, port: None, page_ceiling: None }
    }

    /// Takes one line of a settings file into the layer.
    pub fn absorb_line(&mut self, line: &str) -> (r: Result<(), ConfigError>)
        ensures
            line_absorbed(*old(self), line@, *final(self), r),
    {
        let n: usize = line.unicode_len();
        if n == 0 {
            return Ok(());
        }
        let mut i: usize = 0;
        let mut found = false;
        while i < n && !found
            invariant
                n == line@.len(),
                0 <= i <= n,
                forall|j: int| 0 <= j < i ==> #[trigger] line@[j] != '=',
                found ==> i < n && line@[i as int] == '=',
            decreases n - i + (if found { 0int } else { 1int }),
        {
            if line.get_char(i) == '=' {
                found = true;
            } else {
                i = i + 1;
            }
        }
        if !found {
            return Err(ConfigError::MalformedLine(String::from_str(line)));
        }
        let key = String::from_str(line.substring_char(0, i));
        let value = String::from_str(line.substring_char(i + 1, n));
        proof {
            assert(is_first_equals(line@, i as int));
        }
        if key == String::from_str("server.host") {
            self.host = Some(value);
        } else if key == String::from_str("server.port") {
            self.port = Some(value);
        } else if key == String::from_str("page_ceiling") {
            self.page_ceiling = Some(value);
        }
        Ok(())
    }
}

/// Reads a port from text.
pub fn parse_port(text: &str) -> (p: Option<u16>)
    ensures
        p == port_of_text(text@),
{
    match parse_decimal(text) {
        Some(n) => if n <= 65535 {
            Some(n as u16)
        } else {
            None
        },
        None => None,
    }
}

fn pick_text(upper: Option<String>, lower: Option<String>) -> (r: Option<String>)
    ensures
        text_of(r) == pick(text_of(upper), text_of(lower)),
{
    match upper {
        Some(t) => Some(t),
        None => lower,
    }
}

impl AppConfig {
    /// Loads the configuration from the layers as they were read: merges
    /// them, the environment over the file over the defaults, and reads the
    /// numbers from their texts. Fails if and only if the merged port text,
    /// or else the merged page ceiling text, denotes no number of its kind.
    pub fn load(file: Option<RawLayer>, environment: RawLayer) -> (r: Result<
        AppConfig,
        ConfigError,
    >)
        ensures
            loads(file, environment, r),
    {
        let (file_host, file_port, file_ceiling) = match file {
            Some(l) => (l.host, l.port, l.page_ceiling),
            None => (None, None, None),
        };
        let host = pick_text(environment.host, file_host);
        let port_text = pick_text(environment.port, file_port);
        let ceiling_text = pick_text(environment.page_ceiling, file_ceiling);
        let port: u16 = match port_text {
            Some(t) => match parse_port(t.as_str()) {
                Some(p) => p,
                None => {
                    return Err(ConfigError::InvalidPort(t));
                },
            },
            None => DEFAULT_PORT,
        };
        let page_ceiling: usize = match ceiling_text {
            Some(t) => match parse_decimal(t.as_str()) {
                Some(c) => c,
                None => {
                    return Err(ConfigError::InvalidPageCeiling(t));
                },
            },
            None => DEFAULT_PAGE_CEILING,
        };
        let host = match host {
            Some(h) => h,
            None => String::from_str("127.0.0.1"),
        };
        Ok(AppConfig { server: ServerConfig { host, port }, page_ceiling })
    }


    /// Settles the configuration from typed layers: the environment takes
    /// precedence over the file, and the file over the defaults.
    pub fn from_layers(file: Option<ConfigLayer>, environment: ConfigLayer) -> (c: AppConfig)
        ensures
            c.server.host@ == layered(host_text(Some(environment)), host_text(file), "127.0.0.1"@),
            c.server.port == layered(environment.port, port_of(file), DEFAULT_PORT),
            c.page_ceiling == layered(
                environment.page_ceiling,
                ceiling_of(file),
                DEFAULT_PAGE_CEILING,
            ),
    {
        let mut config = AppConfig::default();
        match file {
            Some(layer) => {
                config.apply(layer);
            },
            None => {},
        }
        config.apply(environment);
        config
    }

    /// Overrides the settings that the layer names.
    pub fn apply(&mut self, layer: ConfigLayer)
        ensures
            final(self).server.host@ == (match layer.host {
                Some(h) => h@,
                None => old(self).server.host@,
            }),
            final(self).server.port == (match layer.port {
                Some(p) => p,
                None => old(self).server.port,
            }),
            final(self).page_ceiling == (match layer.page_ceiling {
                Some(c) => c,
                None => old(self).page_ceiling,
            }),
    {
        match layer.host {
            Some(h) => {
                self.server.host = h;
            },
            None => {},
        }
        match layer.port {
            Some(p) => {
                self.server.port = p;
            },
            None => {},
        }
        match layer.page_ceiling {
            Some(c) => {
                self.page_ceiling = c;
            },
            None => {},
        }
    }
}

impl ServerConfig {
    /// The listening address as text: the host, a colon and the port.
    pub fn address(&self) -> (a: String)
        ensures
            a@ == address_text(*self),
    {
        let port = format_decimal(self.port as usize);
        self.host.clone().concat(":").concat(port.as_str())
    }
}

/// The server to be started, with its settings.
#[derive(Clone, Debug, PartialEq, Eq)]
pub struct GrpcServer {
    config: ServerConfig,
}

impl GrpcServer {
    /// The settings that the server was made with.
    pub closed spec fn settings(&self) -> ServerConfig {
        self.config
    }

    /// A server with the given settings.
    pub fn new(config: ServerConfig) -> (s: GrpcServer)
        ensures
            s.settings() == config,
    {
        GrpcServer { config }
    }

    /// The settings that the server was made with.
    pub fn config(&self) -> (c: &ServerConfig)
        ensures
            *c == self.settings(),
    {
        &self.config
    }

    /// The address that the server binds, as text.
    pub fn address(&self) -> (a: String)
        ensures
            a@ == address_text(self.settings()),
    {
        self.config.address()
    }
}

} // verus!
