//! Connection and identity settings.

use vstd::prelude::*;

verus! {

/// How to reach one mail server.
#[derive(Debug, PartialEq, Eq)]
pub struct MailConfig {
    pub host: String,
    pub port: u16,
    pub username: String,
    pub password: String,
    pub starttls: bool,
}

/// What a `MailConfig` holds, as plain values.
pub struct MailConfigModel {
    pub host: Seq<char>,
    pub port: u16,
    pub username: Seq<char>,
    pub password: Seq<char>,
    pub starttls: bool,
}

impl View for MailConfig {
    type V = MailConfigModel;

    open spec fn view(&self) -> MailConfigModel {
        MailConfigModel {
            host: self.host@,
            port: self.port,
            username: self.username@,
            password: self.password@,
            starttls: self.starttls,
        }
    }
}

impl Clone for MailConfig {
    fn clone(&self) -> (r: Self)
        ensures
            r == *self,
    {
        MailConfig {
            host: self.host.clone(),
            port: self.port,
            username: self.username.clone(),
            password: self.password.clone(),
            starttls: self.starttls,
        }
    }
}

/// Who sends the mail.
#[derive(Debug, PartialEq, Eq)]
pub struct UserConfig {
    pub name: String,
    pub email: String,
}

/// What a `UserConfig` holds, as plain values.
pub struct UserConfigModel {
    pub name: Seq<char>,
    pub email: Seq<char>,
}

impl View for UserConfig {
    type V = UserConfigModel;

    open spec fn view(&self) -> UserConfigModel {
        UserConfigModel { name: self.name@, email: self.email@ }
    }
}

impl Clone for UserConfig {
    fn clone(&self) -> (r: Self)
        ensures
            r == *self,
    {
        UserConfig { name: self.name.clone(), email: self.email.clone() }
    }
}

/// The settings of one account: where mail is read, where it is sent, and
/// in whose name.
#[derive(Debug, PartialEq, Eq)]
pub struct Config {
    pub imap: MailConfig,
    pub smtp: MailConfig,
    pub user: UserConfig,
}

/// What a `Config` holds, as plain values.
pub struct ConfigModel {
    pub imap: MailConfigModel,
    pub smtp: MailConfigModel,
    pub user: UserConfigModel,
}

impl View for Config {
    type V = ConfigModel;

    open spec fn view(&self) -> ConfigModel {
        ConfigModel { imap: self.imap@, smtp: self.smtp@, user: self.user@ }
    }
}

impl Clone for Config {
    fn clone(&self) -> (r: Self)
        ensures
            r == *self,
    {
        Config { imap: self.imap.clone(), smtp: self.smtp.clone(), user: self.user.clone() }
    }
}

} // verus!
