//! Where the engine listens.
//!
//! The address comes from the first of these that gives one:
//!
//! 1. the environment variable `WATERDROP_LISTEN_ADDR`, a full address;
//! 2. the environment variable `WATERDROP_PORT`, a port number;
//! 3. the field `listen_addr` of the configuration file;
//! 4. the field `port` of the configuration file;
//! 5. the default, `0.0.0.0:4242`.
//!
//! Text that is blank gives no address, and white space around it does not matter.
use crate::protocol;
use crate::text;
use vstd::prelude::*;

verus! {

/// The host to listen on where only a port is given.
pub const DEFAULT_HOST: &'static str = "0.0.0.0";

/// The port to listen on where none is given.
pub const DEFAULT_PORT: u16 = 4242;

/// What the configuration file holds.
#[derive(Debug, Clone)]
pub struct ConfigFile {
    /// Full listen address. Where it is set, `port` is ignored.
    pub listen_addr: Option<String>,
    /// Port number.
    pub port: Option<u16>,
}

/// The configuration, resolved.
#[derive(Debug, Clone)]
pub struct AppConfig {
    /// The address that the engine binds to.
    pub listen_addr: String,
}

/// The address for a port.
pub open spec fn addr_of_port(port: u16) -> Seq<char> {
    DEFAULT_HOST@ + ":"@ + text::decimal(port as nat)
}

/// The address for a port.
fn port_addr(port: u16) -> (addr: String)
    ensures
        addr@ == addr_of_port(port),
{
    let mut addr = String::from_str(DEFAULT_HOST);
    addr.append(":");
    text::push_decimal(&mut addr, port as u64);
    addr
}

impl Default for ConfigFile {
    fn default() -> (c: Self)
        ensures
            c.listen_addr is None,
            c.port is None,
    {
        ConfigFile { listen_addr: None, port: None }
    }
}

impl Default for AppConfig {
    fn default() -> (c: Self)
        ensures
            c.listen_addr@ == addr_of_port(DEFAULT_PORT),
    {
        AppConfig { listen_addr: port_addr(DEFAULT_PORT) }
    }
}

/// The configuration file that is written where there is none: it spells out the default
/// port, for users to find and change.
pub fn initial_config_file() -> (c: ConfigFile)
    ensures
        c.listen_addr is None,
        c.port == Some(DEFAULT_PORT),
{
    ConfigFile { listen_addr: None, port: Some(DEFAULT_PORT) }
}

/// The address in a text, unless that is blank.
pub open spec fn addr_in(text: Option<Seq<char>>) -> Option<Seq<char>> {
    match text {
        Some(s) => if text::trimmed(s).len() > 0 {
            Some(text::trimmed(s))
        } else {
            None
        },
        None => None,
    }
}

/// The address for the port number in a text, if it is one.
pub open spec fn port_addr_in(text: Option<Seq<char>>) -> Option<Seq<char>> {
    match text {
        Some(s) => match text::u16_of(text::trimmed(s)) {
            Some(port) => Some(addr_of_port(port)),
            None => None,
        },
        None => None,
    }
}

/// The address that the configuration file gives, if any.
pub open spec fn file_addr(file: Option<ConfigFile>) -> Option<Seq<char>> {
    match file {
        Some(c) => match addr_in(protocol::opt_view(c.listen_addr)) {
            Some(addr) => Some(addr),
            None => match c.port {
                Some(port) => Some(addr_of_port(port)),
                None => None,
            },
        },
        None => None,
    }
}

/// The address to listen on.
pub open spec fn resolved(
    listen_var: Option<Seq<char>>,
    port_var: Option<Seq<char>>,
    file: Option<ConfigFile>,
) -> Seq<char> {
    match addr_in(listen_var) {
        Some(addr) => addr,
        None => match port_addr_in(port_var) {
            Some(addr) => addr,
            None => match file_addr(file) {
                Some(addr) => addr,
                None => addr_of_port(DEFAULT_PORT),
            },
        },
    }
}

fn find_addr(text: Option<String>) -> (r: Option<String>)
    ensures
        protocol::opt_view(r) == addr_in(protocol::opt_view(text)),
{
    match text {
        Some(s) => {
            let addr = text::trim(s.as_str());
            if addr.as_str().unicode_len() > 0 {
                Some(addr)
            } else {
                None
            }
        },
        None => None,
    }
}

/// Resolves the configuration from the two environment variables and the configuration
/// file, as far as they are there.
pub fn load(
    listen_var: Option<String>,
    port_var: Option<String>,
    file: Option<ConfigFile>,
) -> (config: AppConfig)
    ensures
        config.listen_addr@ == resolved(protocol::opt_view(listen_var), protocol::opt_view(port_var), file),
{
    if let Some(addr) = find_addr(listen_var) {
        return AppConfig { listen_addr: addr };
    }
    if let Some(s) = port_var {
        if let Some(port) = text::parse_u16(text::trim(s.as_str()).as_str()) {
            return AppConfig { listen_addr: port_addr(port) };
        }
    }
    if let Some(c) = file {
        if let Some(addr) = find_addr(c.listen_addr) {
            return AppConfig { listen_addr: addr };
        }
        if let Some(port) = c.port {
            return AppConfig { listen_addr: port_addr(port) };
        }
    }
    AppConfig::default()
}

/// The address variable decides alone, unless it is blank.
pub proof fn law_listen_variable_comes_first(
    listen_var: Seq<char>,
    port_var: Option<Seq<char>>,
    file: Option<ConfigFile>,
)
    requires
        text::trimmed(listen_var).len() > 0,
    ensures
        resolved(Some(listen_var), port_var, file) == text::trimmed(listen_var),
{
}

/// The port variable comes next: whatever the file holds, a port number there decides.
pub proof fn law_port_variable_comes_second(port: u16, file: Option<ConfigFile>)
    ensures
        resolved(None, Some(text::decimal(port as nat)), file) == addr_of_port(port),
{
    text::law_written_number_is_read_back(port);
    lemma_decimal_is_trimmed(port as nat);
}

/// A variable that gives no address is as good as none.
pub proof fn law_useless_variables_are_passed_over(
    listen_var: Option<Seq<char>>,
    port_var: Option<Seq<char>>,
    file: Option<ConfigFile>,
)
    requires
        addr_in(listen_var) is None,
        port_addr_in(port_var) is None,
    ensures
        resolved(listen_var, port_var, file) == resolved(None, None, file),
{
}

/// There is always an address, and never a blank one.
pub proof fn law_there_is_always_an_address(
    listen_var: Option<Seq<char>>,
    port_var: Option<Seq<char>>,
    file: Option<ConfigFile>,
)
    ensures
        resolved(listen_var, port_var, file).len() > 0,
{
    reveal_strlit("0.0.0.0");
    assert(forall|port: u16| (#[trigger] addr_of_port(port)).len() > 0);
}

proof fn lemma_decimal_is_trimmed(n: nat)
    ensures
        text::trimmed(text::decimal(n)) == text::decimal(n),
{
    lemma_first_digit(n);
}

proof fn lemma_first_digit(n: nat)
    ensures
        text::decimal(n).len() > 0,
        text::is_digit(text::decimal(n)[0]),
        text::is_digit(text::decimal(n).last()),
    decreases n,
{
    if n >= 10 {
        lemma_first_digit(n / 10);
    }
}

/// Whether neither variable gives an address: the one is blank or not set, the other is no
/// port number or not set.
pub open spec fn variables_are_useless(
    listen_var: Option<Seq<char>>,
    port_var: Option<Seq<char>>,
) -> bool {
    &&& listen_var matches Some(s) ==> text::trimmed(s).len() == 0
    &&& port_var matches Some(s) ==> text::u16_of(text::trimmed(s)) is None
}

/// An address in the configuration file that is not blank decides alone where neither variable
/// does, whatever the port field holds, present or absent.
pub proof fn law_address_in_the_file_decides(
    listen_var: Option<Seq<char>>,
    port_var: Option<Seq<char>>,
    addr: String,
    port: Option<u16>,
)
    requires
        variables_are_useless(listen_var, port_var),
        text::trimmed(addr@).len() > 0,
    ensures
        resolved(listen_var, port_var, Some(ConfigFile { listen_addr: Some(addr), port }))
            == text::trimmed(addr@),
{
}

/// A port in the configuration file decides where neither variable does and the file gives no
/// address: all interfaces are listened on, at that port.
pub proof fn law_port_in_the_file_decides(
    listen_var: Option<Seq<char>>,
    port_var: Option<Seq<char>>,
    listen_addr: Option<String>,
    port: u16,
)
    requires
        variables_are_useless(listen_var, port_var),
        listen_addr matches Some(addr) ==> text::trimmed(addr@).len() == 0,
    ensures
        resolved(listen_var, port_var, Some(ConfigFile { listen_addr, port: Some(port) }))
            == "0.0.0.0:"@ + text::decimal(port as nat),
{
    reveal_strlit("0.0.0.0");
    reveal_strlit(":");
    reveal_strlit("0.0.0.0:");
    assert("0.0.0.0"@ + ":"@ =~= "0.0.0.0:"@);
}

/// A port number in the port variable decides where the address variable gives none, whatever
/// the file holds and whatever white space is around it.
pub proof fn law_port_in_the_variable_decides(
    listen_var: Option<Seq<char>>,
    port_var: Seq<char>,
    port: u16,
    file: Option<ConfigFile>,
)
    requires
        listen_var matches Some(s) ==> text::trimmed(s).len() == 0,
        text::u16_of(text::trimmed(port_var)) == Some(port),
    ensures
        resolved(listen_var, Some(port_var), file) == "0.0.0.0:"@ + text::decimal(port as nat),
{
    reveal_strlit("0.0.0.0");
    reveal_strlit(":");
    reveal_strlit("0.0.0.0:");
    assert("0.0.0.0"@ + ":"@ =~= "0.0.0.0:"@);
}

/// Where nothing gives an address, neither the variables nor the file, the default is used.
pub proof fn law_default_is_the_last_resort(
    listen_var: Option<Seq<char>>,
    port_var: Option<Seq<char>>,
    file: Option<ConfigFile>,
)
    requires
        variables_are_useless(listen_var, port_var),
        file matches Some(c) ==> c.port is None && (c.listen_addr matches Some(addr)
            ==> text::trimmed(addr@).len() == 0),
    ensures
        resolved(listen_var, port_var, file) == "0.0.0.0:"@ + text::decimal(4242),
{
    reveal_strlit("0.0.0.0");
    reveal_strlit(":");
    reveal_strlit("0.0.0.0:");
    assert("0.0.0.0"@ + ":"@ =~= "0.0.0.0:"@);
}

} // verus!
