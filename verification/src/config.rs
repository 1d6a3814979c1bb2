//! The settings of a server.

use vstd::prelude::*;

verus! {

/// The settings of a server: where it is reached, the port of each of its
/// three services, and its RSA private key in PEM.
#[derive(Debug)]
pub struct Config {
    server_ip: String,
    login_port: u16,
    auth_port: u16,
    game_port: u16,
    rsa_private_key: String,
}

/// A [`Config`] as plain values.
pub struct ConfigView {
    pub server_ip: Seq<char>,
    pub login_port: u16,
    pub auth_port: u16,
    pub game_port: u16,
    pub rsa_private_key: Seq<char>,
}

impl View for Config {
    type V = ConfigView;

    closed spec fn view(&self) -> ConfigView {
        ConfigView {
            server_ip: self.server_ip@,
            login_port: self.login_port,
            auth_port: self.auth_port,
            game_port: self.game_port,
            rsa_private_key: self.rsa_private_key@,
        }
    }
}

/// The port that an integer setting names: its low sixteen bits.
pub open spec fn port_of(value: i64) -> u16 {
    (value as int % 0x1_0000) as u16
}

/// The port that an integer setting names: its low sixteen bits.
pub fn port(value: i64) -> (p: u16)
    ensures
        p == port_of(value),
{
    let low: i64 = value % 0x1_0000;
    if low < 0 {
        (low + 0x1_0000) as u16
    } else {
        low as u16
    }
}

impl Clone for Config {
    fn clone(&self) -> (copy: Self)
        ensures
            copy@ == self@,
    {
        Config {
            server_ip: self.server_ip.clone(),
            login_port: self.login_port,
            auth_port: self.auth_port,
            game_port: self.game_port,
            rsa_private_key: self.rsa_private_key.clone(),
        }
    }
}

impl Config {
    /// The settings made of the five values of a settings file, each port
    /// cut to sixteen bits.
    pub fn new(
        server_ip: String,
        login_port: i64,
        auth_port: i64,
        game_port: i64,
        rsa_private_key: String,
    ) -> (config: Config)
        ensures
            config@ == (ConfigView {
                server_ip: server_ip@,
                login_port: port_of(login_port),
                auth_port: port_of(auth_port),
                game_port: port_of(game_port),
                rsa_private_key: rsa_private_key@,
            }),
    {
        Config {
            server_ip,
            login_port: port(login_port),
            auth_port: port(auth_port),
            game_port: port(game_port),
            rsa_private_key,
        }
    }

    pub fn get_server_ip(&self) -> (server_ip: &String)
        ensures
            server_ip@ == self@.server_ip,
    {
        &self.server_ip
    }

    pub fn get_login_port(&self) -> (login_port: u16)
        ensures
            login_port == self@.login_port,
    {
        self.login_port
    }

    pub fn get_auth_port(&self) -> (auth_port: u16)
        ensures
            auth_port == self@.auth_port,
    {
        self.auth_port
    }

    pub fn get_game_port(&self) -> (game_port: u16)
        ensures
            game_port == self@.game_port,
    {
        self.game_port
    }

    pub fn get_rsa_private_key(&self) -> (rsa_private_key: &String)
        ensures
            rsa_private_key@ == self@.rsa_private_key,
    {
        &self.rsa_private_key
    }
}

} // verus!
