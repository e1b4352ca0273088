use vstd::prelude::*;
use vstd::string::*;
use vstd::utf8::*;

use crate::state::{warning_text, State};
use crate::text::decode_utf8_bytes;

verus! {

/// How a configured credential value is to be read.
#[derive(Clone, Copy, PartialEq, Eq, Structural, Debug)]
pub enum InputType {
    /// Run the value as a shell command and take its output.
    Command,
    /// Read the file the value names.
    File,
    /// Use the value as it is.
    Text,
}

/// A declared source of a secret. Command lines and paths are raw bytes.
#[derive(Debug)]
pub enum Credential {
    Command(Vec<u8>),
    File(Vec<u8>),
    Text(String),
}

/// The settings of one run.
pub struct Config {
    /// Directory to work in, if not the current one.
    pub dir: Option<Vec<u8>>,
    pub no_submit: bool,
    pub list_files: bool,
    pub info: bool,
    pub open: bool,
    /// How due dates are shown.
    pub time_format: String,
    /// Where the username comes from; `None` means asking for it.
    pub username: Option<Credential>,
    /// Where the password comes from; `None` means asking for it.
    pub password: Option<Credential>,
    /// Shell command run before submitting.
    pub pre_submit_hook: Option<Vec<u8>>,
    /// Shell command run after a successful submission.
    pub post_submit_hook: Option<Vec<u8>>,
    /// Value of the `submitClientTool` field.
    pub client_name: String,
    /// Value of the `submitClientVersion` field.
    pub client_version: String,
}

/// Settings given on the command line or in the environment.
pub struct Options {
    pub dir: Option<Vec<u8>>,
    pub no_submit: bool,
    pub list_files: bool,
    pub info: bool,
    pub open: bool,
    pub time_format: Option<String>,
    pub username: Option<Vec<u8>>,
    pub username_type: Option<InputType>,
    pub password: Option<Vec<u8>>,
    pub password_type: Option<InputType>,
    pub pre_submit_hook: Option<Vec<u8>>,
    pub post_submit_hook: Option<Vec<u8>>,
    pub client_name: Option<String>,
    pub client_version: Option<String>,
}

/// Settings read from the configuration file.
pub struct ConfigFile {
    pub time_format: Option<String>,
    pub username: Option<String>,
    pub username_type: Option<InputType>,
    pub password: Option<String>,
    pub password_type: Option<InputType>,
    pub pre_submit_hook: Option<Vec<u8>>,
    pub post_submit_hook: Option<Vec<u8>>,
}

/// The format used for due dates when none is configured.
pub open spec fn default_time_format_spec() -> Seq<char> {
    "[month repr:short] [day padding:none], [hour]:[minute]"@
}

/// The client name sent when none is configured.
pub open spec fn default_client_name_spec() -> Seq<char> {
    "sagoin"@
}

/// The format used for due dates when none is configured.
pub fn default_time_format() -> (r: String)
    ensures
        r@ == default_time_format_spec(),
{
    String::from_str("[month repr:short] [day padding:none], [hour]:[minute]")
}

/// The type a value is read as when none is given.
pub open spec fn input_type_or_text(t: Option<InputType>) -> InputType {
    match t {
        Some(t) => t,
        None => InputType::Text,
    }
}

/// Whether `c` is the credential that the bytes `input`, read as `t`,
/// describe; a text credential needs valid UTF-8.
pub open spec fn is_credential_of(c: Credential, input: Seq<u8>, t: InputType) -> bool {
    match t {
        InputType::Command => c matches Credential::Command(v) && v@ == input,
        InputType::File => c matches Credential::File(v) && v@ == input,
        InputType::Text => c matches Credential::Text(s) && valid_utf8(input) && s@ == decode_utf8(input),
    }
}

/// The warning given for a value that is not valid UTF-8.
pub open spec fn invalid_utf8_warning(name: Seq<char>) -> Seq<char> {
    name + " contains invalid UTF-8"@
}

/// Whether `r` is what the bytes `input`, read as `t`, describe: nothing for
/// an empty value or for a text value that is not valid UTF-8.
pub open spec fn describes(r: Option<Credential>, input: Seq<u8>, t: InputType) -> bool {
    if input.len() == 0 || (t == InputType::Text && !valid_utf8(input)) {
        r is None
    } else {
        r matches Some(c) && is_credential_of(c, input, t)
    }
}

/// Whether `r` is what an optional configuration-file value, read as `t`,
/// describes: nothing for an absent or empty value.
pub open spec fn describes_file_value(r: Option<Credential>, y: Option<String>, t: InputType) -> bool {
    match y {
        None => r is None,
        Some(s) => if s@.len() == 0 {
            r is None
        } else {
            r matches Some(c) && is_credential_of(c, encode_utf8(s@), t)
        },
    }
}

/// The warning that reading `input` as `t` gives, if any.
pub open spec fn utf8_warning(color: bool, name: Seq<char>, input: Seq<u8>, t: InputType) -> Seq<
    char,
> {
    if input.len() > 0 && t == InputType::Text && !valid_utf8(input) {
        warning_text(color, invalid_utf8_warning(name))
    } else {
        Seq::empty()
    }
}

impl Credential {
    /// The credential from the command-line value `x` if there is one, else
    /// from the configuration-file value `y`, else none.
    pub fn from_fallback(
        state: &mut State,
        name: &str,
        x: Option<Vec<u8>>,
        y: Option<String>,
        t: Option<InputType>,
    ) -> (r: Option<Credential>)
        ensures
            final(state).color == old(state).color,
            x matches Some(v) ==> describes(r, v@, input_type_or_text(t)) && final(state).out@
                == old(state).out@ + utf8_warning(old(state).color, name@, v@, input_type_or_text(t)),
            x is None ==> final(state).out@ == old(state).out@,
            x is None ==> describes_file_value(r, y, input_type_or_text(t)),
    {
        match x {
            Some(input) => Credential::from_os_string(state, name, input, t),
            None => match y {
                Some(input) => Credential::from_string(input, t),
                None => None,
            },
        }
    }

    /// The credential that a command-line value describes: none for an empty
    /// value; a text value must be valid UTF-8, else a warning is given.
    pub fn from_os_string(state: &mut State, name: &str, input: Vec<u8>, t: Option<InputType>) -> (r:
        Option<Credential>)
        ensures
            final(state).color == old(state).color,
            describes(r, input@, input_type_or_text(t)),
            final(state).out@ == old(state).out@ + utf8_warning(
                old(state).color,
                name@,
                input@,
                input_type_or_text(t),
            ),
    {
        if input.len() == 0 {
            return None;
        }
        let ty = match t {
            Some(t) => t,
            None => InputType::Text,
        };
        match ty {
            InputType::Command => Some(Credential::Command(input)),
            InputType::File => Some(Credential::File(input)),
            InputType::Text => match decode_utf8_bytes(input) {
                Ok(s) => Some(Credential::Text(s)),
                Err(_) => {
                    let msg = String::from_str(name).concat(" contains invalid UTF-8");
                    state.warn(msg.as_str());
                    None
                },
            },
        }
    }

    /// The credential that a configuration-file value describes: none for an
    /// empty value.
    pub fn from_string(input: String, t: Option<InputType>) -> (r: Option<Credential>)
        ensures
            input@.len() == 0 ==> r is None,
            input@.len() > 0 ==> (r matches Some(c) && is_credential_of(
                c,
                encode_utf8(input@),
                input_type_or_text(t),
            )),
    {
        if input.as_str().unicode_len() == 0 {
            return None;
        }
        let ty = match t {
            Some(t) => t,
            None => InputType::Text,
        };
        proof {
            encode_utf8_valid_utf8(input@);
            encode_utf8_decode_utf8(input@);
        }
        match ty {
            InputType::Command => Some(Credential::Command(input.as_str().as_bytes_vec())),
            InputType::File => Some(Credential::File(input.as_str().as_bytes_vec())),
            InputType::Text => {
                Some(Credential::Text(input))
            },
        }
    }
}

/// The first of two optional values that is present.
pub open spec fn first_of<T>(a: Option<T>, b: Option<T>) -> Option<T> {
    match a {
        Some(v) => Some(v),
        None => b,
    }
}

/// A setting of the configuration file, if there is a file.
pub open spec fn from_file<T>(file: Option<ConfigFile>, pick: spec_fn(ConfigFile) -> Option<T>) -> Option<T> {
    match file {
        Some(f) => pick(f),
        None => None,
    }
}

/// The first of two optional values that is present.
fn or_else<T>(a: Option<T>, b: Option<T>) -> (r: Option<T>)
    ensures
        r == first_of(a, b),
{
    match a {
        Some(v) => Some(v),
        None => b,
    }
}

/// Settings from the command line take precedence over those from the
/// configuration file, which take precedence over the defaults. Warnings
/// about the username come before those about the password.
pub fn build_config(state: &mut State, opts: Options, file: Option<ConfigFile>, version: &str) -> (r:
    Config)
    ensures
        final(state).color == old(state).color,
        r.dir == opts.dir,
        r.no_submit == opts.no_submit,
        r.list_files == opts.list_files,
        r.info == opts.info,
        r.open == opts.open,
        r.time_format@ == (match first_of(opts.time_format, from_file(file, |f: ConfigFile| f.time_format)) {
            Some(f) => f@,
            None => default_time_format_spec(),
        }),
        r.pre_submit_hook == first_of(opts.pre_submit_hook, from_file(file, |f: ConfigFile| f.pre_submit_hook)),
        r.post_submit_hook == first_of(opts.post_submit_hook, from_file(file, |f: ConfigFile| f.post_submit_hook)),
        r.client_name@ == (match opts.client_name {
            Some(n) => n@,
            None => default_client_name_spec(),
        }),
        r.client_version@ == (match opts.client_version {
            Some(v) => v@,
            None => version@,
        }),
        opts.username matches Some(v) ==> describes(r.username, v@, input_type_or_text(
            first_of(opts.username_type, from_file(file, |f: ConfigFile| f.username_type)),
        )),
        opts.password matches Some(v) ==> describes(r.password, v@, input_type_or_text(
            first_of(opts.password_type, from_file(file, |f: ConfigFile| f.password_type)),
        )),
        opts.username is None ==> describes_file_value(
            r.username,
            from_file(file, |f: ConfigFile| f.username),
            input_type_or_text(first_of(opts.username_type, from_file(file, |f: ConfigFile| f.username_type))),
        ),
        opts.password is None ==> describes_file_value(
            r.password,
            from_file(file, |f: ConfigFile| f.password),
            input_type_or_text(first_of(opts.password_type, from_file(file, |f: ConfigFile| f.password_type))),
        ),
        final(state).out@ == old(state).out@ + (match opts.username {
            Some(v) => utf8_warning(
                old(state).color,
                "username"@,
                v@,
                input_type_or_text(first_of(opts.username_type, from_file(file, |f: ConfigFile| f.username_type))),
            ),
            None => Seq::empty(),
        }) + (match opts.password {
            Some(v) => utf8_warning(
                old(state).color,
                "password"@,
                v@,
                input_type_or_text(first_of(opts.password_type, from_file(file, |f: ConfigFile| f.password_type))),
            ),
            None => Seq::empty(),
        }),
{
    let (f_time, f_user, f_user_type, f_pass, f_pass_type, f_pre, f_post) = match file {
        Some(f) => (
            f.time_format,
            f.username,
            f.username_type,
            f.password,
            f.password_type,
            f.pre_submit_hook,
            f.post_submit_hook,
        ),
        None => (None, None, None, None, None, None, None),
    };
    let time_format = match or_else(opts.time_format, f_time) {
        Some(f) => f,
        None => default_time_format(),
    };
    let username = Credential::from_fallback(
        state,
        "username",
        opts.username,
        f_user,
        or_else(opts.username_type, f_user_type),
    );
    let password = Credential::from_fallback(
        state,
        "password",
        opts.password,
        f_pass,
        or_else(opts.password_type, f_pass_type),
    );
    let client_name = match opts.client_name {
        Some(n) => n,
        None => String::from_str("sagoin"),
    };
    let client_version = match opts.client_version {
        Some(v) => v,
        None => String::from_str(version),
    };
    Config {
        dir: opts.dir,
        no_submit: opts.no_submit,
        list_files: opts.list_files,
        info: opts.info,
        open: opts.open,
        time_format,
        username,
        password,
        pre_submit_hook: or_else(opts.pre_submit_hook, f_pre),
        post_submit_hook: or_else(opts.post_submit_hook, f_post),
        client_name,
        client_version,
    }
}

} // verus!
