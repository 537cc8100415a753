use vstd::prelude::*;

verus! {

/// How a session authenticates.
#[derive(Clone, Debug)]
pub enum SSHAuthType {
    Password { password: String },
    PrivateKey { key_path: String, passphrase: Option<String> },
}

/// Where and as whom to open a remote session.
#[derive(Clone, Debug)]
pub struct SSHConfig {
    pub host: String,
    pub port: u16,
    pub username: String,
    pub auth_type: SSHAuthType,
}

impl SSHAuthType {
    /// A copy equal to `self`.
    pub fn duplicate(&self) -> (r: SSHAuthType)
        ensures
            r == *self,
    {
        match self {
            SSHAuthType::Password { password } => SSHAuthType::Password { password: password.clone() },
            SSHAuthType::PrivateKey { key_path, passphrase } => {
                let passphrase = match passphrase {
                    Some(p) => Some(p.clone()),
                    None => None,
                };
                SSHAuthType::PrivateKey { key_path: key_path.clone(), passphrase }
            },
        }
    }
}

impl SSHConfig {
    /// A copy equal to `self`.
    pub fn duplicate(&self) -> (r: SSHConfig)
        ensures
            r == *self,
    {
        SSHConfig {
            host: self.host.clone(),
            port: self.port,
            username: self.username.clone(),
            auth_type: self.auth_type.duplicate(),
        }
    }
}

/// Single- or double-sided printing.
#[derive(Clone, Copy, Debug, PartialEq, Eq, Structural)]
pub enum DuplexMode {
    Simplex,
    DuplexLongEdge,
    DuplexShortEdge,
}

#[derive(Clone, Copy, Debug, PartialEq, Eq, Structural)]
pub enum Orientation {
    Portrait,
    Landscape,
}

#[derive(Clone, Copy, Debug, PartialEq, Eq, Structural)]
pub enum PaperSize {
    A4,
    A3,
}

/// Which pages of a document to print.
#[derive(Clone, Debug)]
pub enum PageRange {
    All,
    Range { start: u32, end: u32 },
    /// Page numbers in the order given.
    Selection { pages: Vec<u32> },
}

/// The options of one print job.
#[derive(Clone, Debug)]
pub struct PrintSettings {
    pub copies: u32,
    pub duplex: DuplexMode,
    pub orientation: Orientation,
    pub paper_size: PaperSize,
    pub page_range: PageRange,
}

} // verus!
