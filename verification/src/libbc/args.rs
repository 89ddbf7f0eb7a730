//! The command-line options as the library reads them. Parsing the actual
//! command line is the argument-parsing collaborator's job; the library holds
//! the parsed record and the clamping and mapping rules over it.

use vstd::prelude::*;

verus! {

/// The help text shown by the `h` dialog.
pub const ABOUT: &'static str = "
A command line music player for https://bandcamp.com

[Key]                [Description]
 0-9                  adjust volume
 h                    help
 i                    play info
 s                    free word search
 f                    favorite search
 n                    play next
 m                    menu
 l                    playlist (up:k, down:j, select:enter key)
 p                    play/pause
 Q                    graceful kill
 Ctrl+C               exit";

/// The help text shown by the `h` dialog.
pub fn about() -> (r: &'static str)
    ensures
        r@ == ABOUT@,
{
    ABOUT
}

/// The parsed command-line options.
pub struct Args {
    /// How many verbose flags were given.
    pub verbose: u8,
    /// Skip TLS certificate verification.
    pub no_ssl_verify: bool,
    /// Cover image width, in terminal cells.
    pub img_width: u16,
    /// A proxy address.
    pub proxy: Option<String>,
    /// A genre to start in, skipping the opening dialog.
    pub genre: Option<String>,
    /// A sub-genre to start in.
    pub sub_genre: Option<String>,
    /// List the audio output devices and exit.
    pub list_devices: bool,
}

/// How much the player logs.
#[derive(Clone, Copy, Debug, PartialEq, Eq, Structural)]
pub enum LevelFilter {
    Off,
    Info,
    Debug,
    Trace,
}

impl LevelFilter {
    /// The level's conventional name.
    pub fn to_string(&self) -> (r: String)
        ensures
            (match self {
                LevelFilter::Off => r@ == "OFF"@,
                LevelFilter::Info => r@ == "INFO"@,
                LevelFilter::Debug => r@ == "DEBUG"@,
                LevelFilter::Trace => r@ == "TRACE"@,
            }),
    {
        match self {
            LevelFilter::Off => "OFF".to_owned(),
            LevelFilter::Info => "INFO".to_owned(),
            LevelFilter::Debug => "DEBUG".to_owned(),
            LevelFilter::Trace => "TRACE".to_owned(),
        }
    }
}

/// The log level the verbose count asks for: one flag logs facts, two debug
/// detail, three tracing, anything else nothing.
pub fn args_verbose_log(args: &Args) -> (r: LevelFilter)
    ensures
        args.verbose == 1 ==> r == LevelFilter::Info,
        args.verbose == 2 ==> r == LevelFilter::Debug,
        args.verbose == 3 ==> r == LevelFilter::Trace,
        !(1 <= args.verbose <= 3) ==> r == LevelFilter::Off,
{
    if args.verbose == 1 {
        LevelFilter::Info
    } else if args.verbose == 2 {
        LevelFilter::Debug
    } else if args.verbose == 3 {
        LevelFilter::Trace
    } else {
        LevelFilter::Off
    }
}

/// Whether TLS certificate verification is off.
pub fn args_no_ssl_verify(args: &Args) -> (r: bool)
    ensures
        r == args.no_ssl_verify,
{
    args.no_ssl_verify
}

/// The proxy address, when one was given.
pub fn args_socks(args: &Args) -> (r: Option<String>)
    ensures
        (match (&r, &args.proxy) {
            (Some(a), Some(b)) => a@ == b@,
            (None, None) => true,
            _ => false,
        }),
{
    crate::models::bc_discover_index::clone_opt_string(&args.proxy)
}

/// The cover image width, clamped between ten and a hundred cells.
pub fn args_img_size(args: &Args) -> (r: u16)
    ensures
        args.img_width >= 100 ==> r == 100,
        args.img_width <= 10 ==> r == 10,
        10 < args.img_width < 100 ==> r == args.img_width,
{
    if args.img_width >= 100 {
        100
    } else if args.img_width <= 10 {
        10
    } else {
        args.img_width
    }
}

/// The genre named on the command line.
pub fn args_genre(args: &Args) -> (r: Option<String>)
    ensures
        (match (&r, &args.genre) {
            (Some(a), Some(b)) => a@ == b@,
            (None, None) => true,
            _ => false,
        }),
{
    crate::models::bc_discover_index::clone_opt_string(&args.genre)
}

/// The sub-genre named on the command line.
pub fn args_sub_genre(args: &Args) -> (r: Option<String>)
    ensures
        (match (&r, &args.sub_genre) {
            (Some(a), Some(b)) => a@ == b@,
            (None, None) => true,
            _ => false,
        }),
{
    crate::models::bc_discover_index::clone_opt_string(&args.sub_genre)
}

/// Whether the run only lists audio devices.
pub fn args_list_devices(args: &Args) -> (r: bool)
    ensures
        r == args.list_devices,
{
    args.list_devices
}

} // verus!
