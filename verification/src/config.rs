use vstd::prelude::*;

verus! {

/// One supported output configuration of a device, reduced to what the
/// selection rule reads: its channel count and the highest sample rate it
/// offers.
#[derive(Clone, Copy, PartialEq, Eq, Structural, Debug)]
pub struct OutputConfig {
    pub channels: u16,
    pub max_sample_rate: u32,
}

/// Whether index `i` names the configuration the pipeline must use: a
/// two-channel one whose rate no other two-channel one beats, and the first
/// such among equals.
pub open spec fn is_selected_config(configs: Seq<OutputConfig>, i: int) -> bool {
    &&& 0 <= i < configs.len()
    &&& configs[i].channels == 2
    &&& forall|j: int|
        0 <= j < configs.len() && #[trigger] configs[j].channels == 2
            ==> configs[j].max_sample_rate <= configs[i].max_sample_rate
    &&& forall|j: int|
        0 <= j < i && #[trigger] configs[j].channels == 2
            ==> configs[j].max_sample_rate < configs[i].max_sample_rate
}

/// Pick the output configuration to play through: among the two-channel
/// configurations, the first one carrying the maximum sample rate. `None`
/// exactly when no configuration has two channels — the caller's
/// device-configuration error.
pub fn select_output_config(configs: &Vec<OutputConfig>) -> (r: Option<usize>)
    ensures
        match r {
            Some(i) => is_selected_config(configs@, i as int),
            None => forall|j: int|
                0 <= j < configs@.len() ==> #[trigger] configs@[j].channels != 2,
        },
{
    let mut best: Option<usize> = None;
    let mut i: usize = 0;
    let n = configs.len();
    #[verifier::loop_isolation(false)]
    while i < n
        invariant
            i <= n,
            match best {
                Some(b) => {
                    &&& 0 <= b < i
                    &&& configs@[b as int].channels == 2
                    &&& forall|j: int|
                        0 <= j < i && #[trigger] configs@[j].channels == 2
                            ==> configs@[j].max_sample_rate <= configs@[b as int].max_sample_rate
                    &&& forall|j: int|
                        0 <= j < b && #[trigger] configs@[j].channels == 2
                            ==> configs@[j].max_sample_rate < configs@[b as int].max_sample_rate
                },
                None => forall|j: int| 0 <= j < i ==> #[trigger] configs@[j].channels != 2,
            },
        decreases n - i,
    {
        let c = configs[i];
        if c.channels == 2 {
            best = match best {
                Some(b) => {
                    if configs[b].max_sample_rate < c.max_sample_rate {
                        Some(i)
                    } else {
                        Some(b)
                    }
                },
                None => Some(i),
            };
        }
        i = i + 1;
    }
    best
}

} // verus!
