use vstd::prelude::*;

verus! {

/// Settings that hold for a whole session.
#[derive(Debug)]
pub struct Config {
    /// Modal (Normal/Insert/Command) key bindings instead of plain insertion.
    pub vim_bindings: bool,
    /// Number of spaces that Tab inserts.
    pub tab_size: usize,
    /// Directory of the dated notes and their statistics files.
    pub daily_notes_dir: String,
    /// Longest silence, in seconds, that still belongs to one typing session.
    pub typing_timeout_seconds: u64,
    pub show_prompts: bool,
    /// One of "ghost", "none" or "command_only".
    pub prompt_style: String,
    pub use_ai_prompts: bool,
}

pub fn default_vim_bindings() -> (r: bool)
    ensures
        r == false,
{
    false
}

pub fn default_tab_size() -> (r: usize)
    ensures
        r == 4,
{
    4
}

pub fn default_typing_timeout_seconds() -> (r: u64)
    ensures
        r == 180,
{
    180
}

pub fn default_show_prompts() -> (r: bool)
    ensures
        r == true,
{
    true
}

pub fn default_prompt_style() -> (r: String)
    ensures
        r@ == "ghost"@,
{
    "ghost".to_owned()
}

pub fn default_use_ai_prompts() -> (r: bool)
    ensures
        r == true,
{
    true
}

impl Config {
    /// The default settings, with notes kept under `daily_notes_dir`.
    pub fn defaults_in(daily_notes_dir: String) -> (r: Config)
        ensures
            r.vim_bindings == false,
            r.tab_size == 4,
            r.daily_notes_dir == daily_notes_dir,
            r.typing_timeout_seconds == 180,
            r.show_prompts == true,
            r.prompt_style@ == "ghost"@,
            r.use_ai_prompts == true,
    {
        Config {
            vim_bindings: default_vim_bindings(),
            tab_size: default_tab_size(),
            daily_notes_dir,
            typing_timeout_seconds: default_typing_timeout_seconds(),
            show_prompts: default_show_prompts(),
            prompt_style: default_prompt_style(),
            use_ai_prompts: default_use_ai_prompts(),
        }
    }
}

/// A directory path with a leading `~` replaced by the home directory.
pub fn expand_home(dir: &Vec<char>, home: &Vec<char>) -> (r: Vec<char>)
    ensures
        r@ == if dir@.len() > 0 && dir@[0] == '~' {
            home@ + dir@.drop_first()
        } else {
            dir@
        },
{
    let mut r: Vec<char> = Vec::new();
    let start: usize = if dir.len() > 0 && dir[0] == '~' {
        let mut i: usize = 0;
        while i < home.len()
            invariant
                i <= home.len(),
                r@ == home@.subrange(0, i as int),
            decreases home.len() - i,
        {
            r.push(home[i]);
            assert(r@ =~= home@.subrange(0, i + 1));
            i += 1;
        }
        assert(home@.subrange(0, home.len() as int) =~= home@);
        1
    } else {
        0
    };
    let ghost head = r@;
    let mut j: usize = start;
    while j < dir.len()
        invariant
            start <= j <= dir.len(),
            start <= 1,
            r@ == head + dir@.subrange(start as int, j as int),
        decreases dir.len() - j,
    {
        r.push(dir[j]);
        assert(r@ =~= head + dir@.subrange(start as int, j + 1));
        j += 1;
    }
    assert(dir@.subrange(1, dir.len() as int) =~= dir@.drop_first());
    assert(dir@.subrange(0, dir.len() as int) =~= dir@);
    r
}

/// A writing prompt suggested for one day.
#[derive(Debug)]
pub struct DailyPrompt {
    pub prompt: String,
    pub theme: String,
    pub context: Option<String>,
}

} // verus!
