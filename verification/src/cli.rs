//! The command line: options, their values and the errors that refuse them.
use vstd::prelude::*;
use crate::http::{parse_unsigned, parse_unsigned_exec};
use crate::text::{chars_of, is_text, push_str, string_of};

verus! {

broadcast use vstd::string::group_string_axioms;

/// How the server is to run.
#[derive(Debug, PartialEq, Eq)]
pub struct PortConfig {
    pub port: u16,
    pub fallback_to_random: bool,
    pub pid_file: Option<String>,
    pub raw: bool,
    pub cache_dir: Option<String>,
    pub serve_dir: String,
    pub auth_token: Option<String>,
}

pub struct ConfigView {
    pub port: u16,
    pub fallback_to_random: bool,
    pub pid_file: Option<Seq<char>>,
    pub raw: bool,
    pub cache_dir: Option<Seq<char>>,
    pub serve_dir: Seq<char>,
    pub auth_token: Option<Seq<char>>,
}

impl View for PortConfig {
    type V = ConfigView;

    open spec fn view(&self) -> ConfigView {
        ConfigView {
            port: self.port,
            fallback_to_random: self.fallback_to_random,
            pid_file: crate::review::opt_text(self.pid_file),
            raw: self.raw,
            cache_dir: crate::review::opt_text(self.cache_dir),
            serve_dir: self.serve_dir@,
            auth_token: crate::review::opt_text(self.auth_token),
        }
    }
}

/// The port the server listens on when none is given.
pub const DEFAULT_PORT: u16 = 8080;

/// The configuration before any option is read.
pub open spec fn default_config() -> ConfigView {
    ConfigView {
        port: DEFAULT_PORT,
        fallback_to_random: true,
        pid_file: None,
        raw: false,
        cache_dir: None,
        serve_dir: "."@,
        auth_token: None,
    }
}

/// What the options `args` make of `cfg`: the configuration, `None` when help was
/// asked for, or the error that refuses them.
pub open spec fn parse_from(args: Seq<Seq<char>>, cfg: ConfigView) -> Result<Option<ConfigView>, Seq<char>>
    decreases args.len(),
{
    if args.len() == 0 {
        Ok(Some(cfg))
    } else {
        let arg = args[0];
        let rest = args.skip(1);
        if arg == "-p"@ || arg == "--port"@ {
            if rest.len() == 0 {
                Err(arg + " 后需要端口号"@)
            } else {
                match parse_unsigned(rest[0], 65535) {
                    None => Err("无效端口: "@ + rest[0]),
                    Some(p) => if p == 0 {
                        Err("端口必须在 1 到 65535 之间"@)
                    } else {
                        parse_from(rest.skip(1), ConfigView { port: p as u16, fallback_to_random: false, ..cfg })
                    },
                }
            }
        } else if arg == "-pid"@ || arg == "--pid"@ {
            if rest.len() == 0 {
                Err(arg + " 后需要 PID 文件路径"@)
            } else if rest[0].len() == 0 {
                Err("PID 文件路径不能为空"@)
            } else {
                parse_from(rest.skip(1), ConfigView { pid_file: Some(rest[0]), ..cfg })
            }
        } else if arg == "-cache"@ || arg == "--cache"@ {
            if rest.len() == 0 {
                Err(arg + " 后需要缓存根目录"@)
            } else {
                parse_from(rest.skip(1), ConfigView { cache_dir: Some(rest[0]), ..cfg })
            }
        } else if arg == "-dir"@ || arg == "--dir"@ {
            if rest.len() == 0 {
                Err(arg + " 后需要托管目录"@)
            } else {
                parse_from(rest.skip(1), ConfigView { serve_dir: rest[0], ..cfg })
            }
        } else if arg == "--raw"@ {
            parse_from(rest, ConfigView { raw: true, ..cfg })
        } else if arg == "--auth-token"@ {
            if rest.len() == 0 {
                Err(arg + " 后需要 token"@)
            } else if rest[0].len() == 0 {
                Err("认证 token 不能为空"@)
            } else {
                parse_from(rest.skip(1), ConfigView { auth_token: Some(rest[0]), ..cfg })
            }
        } else if arg == "-h"@ || arg == "--help"@ {
            Ok(None)
        } else {
            Err("未知参数: "@ + arg)
        }
    }
}

pub open spec fn arg_views(args: Seq<String>) -> Seq<Seq<char>> {
    args.map_values(|a: String| a@)
}

fn concat(a: &[char], b: &str) -> (r: String)
    ensures
        r@ == a@ + b@,
{
    let mut r = string_of(a);
    push_str(&mut r, b);
    r
}

fn prefixed(a: &str, b: &[char]) -> (r: String)
    ensures
        r@ == a@ + b@,
{
    let mut r = string_of(chars_of(a).as_slice());
    crate::text::push_chars(&mut r, b);
    r
}

/// Reads the command line options (without the program name). `Ok(None)` means help
/// was asked for: the caller prints `usage()` and stops.
pub fn parse_args(args: Vec<String>) -> (r: Result<Option<PortConfig>, String>)
    ensures
        match parse_from(arg_views(args@), default_config()) {
            Ok(Some(c)) => r matches Ok(Some(rc)) && rc@ == c,
            Ok(None) => r matches Ok(None),
            Err(e) => r matches Err(m) && m@ == e,
        },
{
    let ghost all = arg_views(args@);
    let mut port: u16 = DEFAULT_PORT;
    let mut fallback_to_random = true;
    let mut pid_file: Option<String> = None;
    let mut raw = false;
    let mut cache_dir: Option<String> = None;
    let mut serve_dir = string_of(chars_of(".").as_slice());
    let mut auth_token: Option<String> = None;
    let mut i: usize = 0;
    proof {
        assert(all.skip(0) =~= all);
    }
    while i < args.len()
        invariant
            all == arg_views(args@),
            i <= args@.len(),
            parse_from(all, default_config()) == parse_from(
                all.skip(i as int),
                ConfigView {
                    port,
                    fallback_to_random,
                    pid_file: crate::review::opt_text(pid_file),
                    raw,
                    cache_dir: crate::review::opt_text(cache_dir),
                    serve_dir: serve_dir@,
                    auth_token: crate::review::opt_text(auth_token),
                },
            ),
        decreases args@.len() - i,
    {
        let ghost cfg = ConfigView {
            port,
            fallback_to_random,
            pid_file: crate::review::opt_text(pid_file),
            raw,
            cache_dir: crate::review::opt_text(cache_dir),
            serve_dir: serve_dir@,
            auth_token: crate::review::opt_text(auth_token),
        };
        let ghost tail = all.skip(i as int);
        proof {
            assert(tail[0] == args@[i as int]@);
            assert(tail.skip(1) =~= all.skip(i + 1));
            if i + 1 < args@.len() {
                assert(tail.skip(1)[0] == args@[i + 1]@);
                assert(tail.skip(1).skip(1) =~= all.skip(i + 2));
            }
        }
        let arg = chars_of(args[i].as_str());
        let has_value = i + 1 < args.len();
        if is_text(arg.as_slice(), "-p") || is_text(arg.as_slice(), "--port") {
            if !has_value {
                return Err(concat(arg.as_slice(), " 后需要端口号"));
            }
            let value = chars_of(args[i + 1].as_str());
            match parse_unsigned_exec(value.as_slice(), 65535) {
                None => {
                    return Err(prefixed("无效端口: ", value.as_slice()));
                },
                Some(p) => {
                    if p == 0 {
                        return Err(string_of(chars_of("端口必须在 1 到 65535 之间").as_slice()));
                    }
                    port = p as u16;
                    fallback_to_random = false;
                },
            }
            i = i + 2;
        } else if is_text(arg.as_slice(), "-pid") || is_text(arg.as_slice(), "--pid") {
            if !has_value {
                return Err(concat(arg.as_slice(), " 后需要 PID 文件路径"));
            }
            let value = chars_of(args[i + 1].as_str());
            if value.len() == 0 {
                return Err(string_of(chars_of("PID 文件路径不能为空").as_slice()));
            }
            pid_file = Some(string_of(value.as_slice()));
            i = i + 2;
        } else if is_text(arg.as_slice(), "-cache") || is_text(arg.as_slice(), "--cache") {
            if !has_value {
                return Err(concat(arg.as_slice(), " 后需要缓存根目录"));
            }
            let value = chars_of(args[i + 1].as_str());
            cache_dir = Some(string_of(value.as_slice()));
            i = i + 2;
        } else if is_text(arg.as_slice(), "-dir") || is_text(arg.as_slice(), "--dir") {
            if !has_value {
                return Err(concat(arg.as_slice(), " 后需要托管目录"));
            }
            let value = chars_of(args[i + 1].as_str());
            serve_dir = string_of(value.as_slice());
            i = i + 2;
        } else if is_text(arg.as_slice(), "--raw") {
            raw = true;
            i = i + 1;
        } else if is_text(arg.as_slice(), "--auth-token") {
            if !has_value {
                return Err(concat(arg.as_slice(), " 后需要 token"));
            }
            let value = chars_of(args[i + 1].as_str());
            if value.len() == 0 {
                return Err(string_of(chars_of("认证 token 不能为空").as_slice()));
            }
            auth_token = Some(string_of(value.as_slice()));
            i = i + 2;
        } else if is_text(arg.as_slice(), "-h") || is_text(arg.as_slice(), "--help") {
            return Ok(None);
        } else {
            return Err(prefixed("未知参数: ", arg.as_slice()));
        }
    }
    proof {
        assert(all.skip(i as int) =~= Seq::<Seq<char>>::empty());
    }
    Ok(Some(PortConfig { port, fallback_to_random, pid_file, raw, cache_dir, serve_dir, auth_token }))
}

/// The help text.
pub open spec fn usage_text() -> Seq<char> {
    "用法: webdir [-p PORT] [-pid FILE] [-cache DIR] [-dir DIR] [--auth-token TOKEN] [--raw]\n\n选项:\n  -p, --port PORT      指定监听端口（默认 8080）\n  -pid, --pid FILE     将启动进程 PID 写入指定文件\n  -cache, --cache DIR   指定缓存根目录（缩略图、图片特征和状态存入 DIR）\n  -dir, --dir DIR      指定托管目录（默认当前目录）\n  --auth-token TOKEN   为所有访问启用 token 认证\n  --raw                以原始静态网站服务器模式运行\n  -h, --help           显示帮助"@
}

/// The help text, printed for `-h` and after an error in the options.
pub fn usage() -> (r: String)
    ensures
        r@ == usage_text(),
{
    string_of(chars_of("用法: webdir [-p PORT] [-pid FILE] [-cache DIR] [-dir DIR] [--auth-token TOKEN] [--raw]\n\n选项:\n  -p, --port PORT      指定监听端口（默认 8080）\n  -pid, --pid FILE     将启动进程 PID 写入指定文件\n  -cache, --cache DIR   指定缓存根目录（缩略图、图片特征和状态存入 DIR）\n  -dir, --dir DIR      指定托管目录（默认当前目录）\n  --auth-token TOKEN   为所有访问启用 token 认证\n  --raw                以原始静态网站服务器模式运行\n  -h, --help           显示帮助").as_slice())
}

} // verus!
