//! Building the invocation of the external agent executable from a session
//! configuration.

use vstd::prelude::*;

use crate::config::{ConfigView, SessionConfig};
use crate::strings::{dec_digits, digit_char, digit_to_char, u32_to_string};

verus! {

/// The decimal-fraction notation of a temperature held in hundredths: the
/// whole part, then a point and one or two fractional digits, trailing zeros
/// dropped.
pub open spec fn temperature_text(t: u32) -> Seq<char> {
    let whole = dec_digits((t / 100) as nat);
    if t % 100 == 0 {
        whole
    } else if t % 10 == 0 {
        whole.push('.').push(digit_char(((t / 10) % 10) as nat))
    } else {
        whole.push('.').push(digit_char(((t / 10) % 10) as nat)).push(digit_char((t % 10) as nat))
    }
}

/// Prints a temperature in hundredths as the decimal fraction the agent
/// executable expects, seventy becoming "0.7".
pub fn format_temperature(t: u32) -> (r: String)
    ensures
        r@ == temperature_text(t),
{
    let mut out = u32_to_string(t / 100);
    if t % 100 != 0 {
        out.push('.');
        out.push(digit_to_char((t / 10) % 10));
        if t % 10 != 0 {
            out.push(digit_to_char(t % 10));
        }
    }
    out
}

/// The two arguments a present optional flag contributes, and none for an
/// absent one.
pub open spec fn flag_args(flag: Seq<char>, value: Option<Seq<char>>) -> Seq<Seq<char>> {
    match value {
        Some(v) => seq![flag, v],
        None => Seq::<Seq<char>>::empty(),
    }
}

/// The full argument list for subcommand "session" of the agent executable:
/// `--name`, `--resume` and `--model` when set, always `--temperature`, then
/// `--max-tokens` when set, and always `--role`.
pub open spec fn session_args(c: ConfigView) -> Seq<Seq<char>> {
    seq!["session"@] + flag_args("--name"@, c.name) + flag_args("--resume"@, c.resume) + flag_args(
        "--model"@,
        c.model,
    ) + seq!["--temperature"@, temperature_text(c.temperature)] + (match c.max_tokens {
        Some(t) => seq!["--max-tokens"@, dec_digits(t as nat)],
        None => Seq::<Seq<char>>::empty(),
    }) + seq!["--role"@, c.role]
}

/// Pushes a flag and its value when the value is set.
fn push_flag(args: &mut Vec<String>, flag: &str, value: &Option<String>)
    ensures
        final(args)@.map_values(|s: String| s@) == old(args)@.map_values(|s: String| s@)
            + flag_args(flag@, value.deep_view()),
{
    let ghost before = args@.map_values(|s: String| s@);
    match value {
        Some(v) => {
            args.push(String::from_str(flag));
            args.push(v.clone());
            proof {
                assert(args@.map_values(|s: String| s@) =~= before + flag_args(
                    flag@,
                    value.deep_view(),
                ));
            }
        },
        None => {
            proof {
                assert(args@.map_values(|s: String| s@) =~= before + flag_args(
                    flag@,
                    value.deep_view(),
                ));
            }
        },
    }
}

/// Everything the host needs to spawn one session's child process: the
/// program, its arguments, and the working directory to start it in.
#[derive(Debug)]
pub struct LaunchPlan {
    pub program: String,
    pub args: Vec<String>,
    pub directory: String,
}

/// Builds the argument list for launching a session with this configuration.
pub fn build_session_args(config: &SessionConfig) -> (r: Vec<String>)
    ensures
        r@.map_values(|s: String| s@) == session_args(config@),
{
    let mut args: Vec<String> = Vec::new();
    args.push(String::from_str("session"));
    proof {
        assert(args@.map_values(|s: String| s@) =~= seq!["session"@]);
    }
    push_flag(&mut args, "--name", &config.name);
    push_flag(&mut args, "--resume", &config.resume);
    push_flag(&mut args, "--model", &config.model);
    let ghost mid = args@.map_values(|s: String| s@);
    args.push(String::from_str("--temperature"));
    args.push(format_temperature(config.temperature));
    proof {
        assert(args@.map_values(|s: String| s@) =~= mid + seq![
            "--temperature"@,
            temperature_text(config@.temperature),
        ]);
    }
    match &config.max_tokens {
        Some(t) => {
            let ghost here = args@.map_values(|s: String| s@);
            args.push(String::from_str("--max-tokens"));
            args.push(u32_to_string(*t));
            proof {
                assert(args@.map_values(|s: String| s@) =~= here + seq![
                    "--max-tokens"@,
                    dec_digits(*t as nat),
                ]);
            }
        },
        None => (),
    }
    let ghost tail = args@.map_values(|s: String| s@);
    args.push(String::from_str("--role"));
    args.push(config.role.clone());
    proof {
        assert(args@.map_values(|s: String| s@) =~= tail + seq!["--role"@, config@.role]);
        assert(args@.map_values(|s: String| s@) =~= session_args(config@));
    }
    args
}

} // verus!
