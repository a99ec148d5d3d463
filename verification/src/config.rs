//! Which segments the bar shows, read from the process arguments.

use vstd::prelude::*;

verus! {

/// One enable flag per segment. Everything starts disabled; an unrecognized
/// argument is ignored rather than rejected.
pub struct Config {
    pub audio: bool,
    pub battery: bool,
    pub weather: bool,
    pub cpu_temp: bool,
}

/// Whether some element of `args` reads exactly `flag`.
pub open spec fn has_flag(args: Seq<String>, flag: Seq<char>) -> bool {
    exists|i: int| 0 <= i < args.len() && (#[trigger] args[i])@ == flag
}

proof fn lemma_has_flag_take_step(args: Seq<String>, i: int, f: Seq<char>)
    requires
        0 <= i < args.len(),
    ensures
        has_flag(args.take(i + 1), f) == (has_flag(args.take(i), f) || args[i]@ == f),
{
    let t1 = args.take(i + 1);
    let t0 = args.take(i);
    if has_flag(t1, f) {
        let k = choose|k: int| 0 <= k < t1.len() && (#[trigger] t1[k])@ == f;
        if k < i {
            assert(t0[k] == t1[k]);
            assert(has_flag(t0, f));
        } else {
            assert(t1[k] == args[i]);
        }
    }
    if has_flag(t0, f) {
        let k = choose|k: int| 0 <= k < t0.len() && (#[trigger] t0[k])@ == f;
        assert(t1[k] == t0[k]);
        assert(has_flag(t1, f));
    }
    if args[i]@ == f {
        assert(t1[i]@ == f);
        assert(has_flag(t1, f));
    }
}

impl Default for Config {
    /// Every segment starts disabled.
    fn default() -> (c: Config)
        ensures
            !c.audio && !c.battery && !c.weather && !c.cpu_temp,
    {
        Config { audio: false, battery: false, weather: false, cpu_temp: false }
    }
}

impl Config {
    /// Reads the flags from the arguments that followed the program name:
    /// `-a` audio, `-b` battery, `-w` weather, `-c` CPU temperature. Anything
    /// else is ignored.
    pub fn from_args(args: &Vec<String>) -> (c: Config)
        ensures
            c.audio == has_flag(args@, "-a"@),
            c.battery == has_flag(args@, "-b"@),
            c.weather == has_flag(args@, "-w"@),
            c.cpu_temp == has_flag(args@, "-c"@),
    {
        let flag_a = String::from_str("-a");
        let flag_b = String::from_str("-b");
        let flag_w = String::from_str("-w");
        let flag_c = String::from_str("-c");
        let mut config = Config::default();
        let mut i: usize = 0;
        while i < args.len()
            invariant
                0 <= i <= args@.len(),
                flag_a@ == "-a"@ && flag_b@ == "-b"@ && flag_w@ == "-w"@ && flag_c@ == "-c"@,
                config.audio == has_flag(args@.take(i as int), "-a"@),
                config.battery == has_flag(args@.take(i as int), "-b"@),
                config.weather == has_flag(args@.take(i as int), "-w"@),
                config.cpu_temp == has_flag(args@.take(i as int), "-c"@),
            decreases args@.len() - i,
        {
            let arg = &args[i];
            if *arg == flag_a {
                config.audio = true;
            } else if *arg == flag_b {
                config.battery = true;
            } else if *arg == flag_w {
                config.weather = true;
            } else if *arg == flag_c {
                config.cpu_temp = true;
            }
            proof {
                reveal_strlit("-a");
                reveal_strlit("-b");
                reveal_strlit("-w");
                reveal_strlit("-c");
                assert("-a"@[1] == 'a' && "-b"@[1] == 'b' && "-w"@[1] == 'w' && "-c"@[1] == 'c');
                lemma_has_flag_take_step(args@, i as int, "-a"@);
                lemma_has_flag_take_step(args@, i as int, "-b"@);
                lemma_has_flag_take_step(args@, i as int, "-w"@);
                lemma_has_flag_take_step(args@, i as int, "-c"@);
            }
            i = i + 1;
        }
        proof {
            assert(args@.take(args@.len() as int) =~= args@);
        }
        config
    }
}

} // verus!
