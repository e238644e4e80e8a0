//! Totals the system monitor derives from what the operating system reports:
//! network traffic over all interfaces and processes by state.
use vstd::prelude::*;
use crate::text::{chars_of, contains, contains_seq};

verus! {

/// The traffic of one network interface.
#[derive(Debug)]
pub struct NetworkInfo {
    pub interface_name: String,
    pub bytes_received: u64,
    pub bytes_sent: u64,
    pub packets_received: u64,
    pub packets_sent: u64,
    pub errors_on_received: u64,
    pub errors_on_transmitted: u64,
}

/// The traffic of all interfaces together.
#[derive(Debug)]
pub struct NetworkIO {
    pub bytes_received: u64,
    pub bytes_sent: u64,
    pub packets_received: u64,
    pub packets_sent: u64,
}

/// How many processes there are, and how many run, sleep or are zombies.
#[derive(Debug)]
pub struct ProcessInfo {
    pub total_processes: usize,
    pub running_processes: usize,
    pub sleeping_processes: usize,
    pub zombie_processes: usize,
}

/// The sum of `f` over the first `n` interfaces.
pub open spec fn sum_upto(ifs: Seq<NetworkInfo>, f: spec_fn(NetworkInfo) -> u64, n: int) -> int
    decreases n,
{
    if n <= 0 {
        0
    } else {
        sum_upto(ifs, f, n - 1) + f(ifs[n - 1])
    }
}

/// Bytes received.
pub open spec fn rx_bytes() -> spec_fn(NetworkInfo) -> u64 {
    |i: NetworkInfo| i.bytes_received
}

/// Bytes sent.
pub open spec fn tx_bytes() -> spec_fn(NetworkInfo) -> u64 {
    |i: NetworkInfo| i.bytes_sent
}

/// Packets received.
pub open spec fn rx_packets() -> spec_fn(NetworkInfo) -> u64 {
    |i: NetworkInfo| i.packets_received
}

/// Packets sent.
pub open spec fn tx_packets() -> spec_fn(NetworkInfo) -> u64 {
    |i: NetworkInfo| i.packets_sent
}

/// The sum of `f` over all interfaces.
pub open spec fn total_of(ifs: Seq<NetworkInfo>, f: spec_fn(NetworkInfo) -> u64) -> int {
    sum_upto(ifs, f, ifs.len() as int)
}

proof fn lemma_sum_monotone(ifs: Seq<NetworkInfo>, f: spec_fn(NetworkInfo) -> u64, m: int, n: int)
    requires
        0 <= m <= n <= ifs.len(),
    ensures
        0 <= sum_upto(ifs, f, m) <= sum_upto(ifs, f, n),
    decreases n,
{
    if n > 0 {
        if m < n {
            lemma_sum_monotone(ifs, f, m, n - 1);
        } else {
            lemma_sum_monotone(ifs, f, n - 1, n - 1);
        }
    }
}

/// The traffic of all interfaces together; each total must fit in 64 bits.
pub fn network_io_totals(interfaces: &[NetworkInfo]) -> (t: NetworkIO)
    requires
        total_of(interfaces@, rx_bytes()) <= u64::MAX,
        total_of(interfaces@, tx_bytes()) <= u64::MAX,
        total_of(interfaces@, rx_packets()) <= u64::MAX,
        total_of(interfaces@, tx_packets()) <= u64::MAX,
    ensures
        t.bytes_received == total_of(interfaces@, rx_bytes()),
        t.bytes_sent == total_of(interfaces@, tx_bytes()),
        t.packets_received == total_of(interfaces@, rx_packets()),
        t.packets_sent == total_of(interfaces@, tx_packets()),
{
    let ghost ifs = interfaces@;
    let mut rb: u64 = 0;
    let mut tb: u64 = 0;
    let mut rp: u64 = 0;
    let mut tp: u64 = 0;
    let mut i: usize = 0;
    while i < interfaces.len()
        invariant
            ifs == interfaces@,
            i <= ifs.len(),
            total_of(ifs, rx_bytes()) <= u64::MAX,
            total_of(ifs, tx_bytes()) <= u64::MAX,
            total_of(ifs, rx_packets()) <= u64::MAX,
            total_of(ifs, tx_packets()) <= u64::MAX,
            rb == sum_upto(ifs, rx_bytes(), i as int),
            tb == sum_upto(ifs, tx_bytes(), i as int),
            rp == sum_upto(ifs, rx_packets(), i as int),
            tp == sum_upto(ifs, tx_packets(), i as int),
        decreases interfaces.len() - i,
    {
        proof {
            lemma_sum_monotone(ifs, rx_bytes(), i + 1, ifs.len() as int);
            lemma_sum_monotone(ifs, tx_bytes(), i + 1, ifs.len() as int);
            lemma_sum_monotone(ifs, rx_packets(), i + 1, ifs.len() as int);
            lemma_sum_monotone(ifs, tx_packets(), i + 1, ifs.len() as int);
        }
        let d = &interfaces[i];
        rb = rb + d.bytes_received;
        tb = tb + d.bytes_sent;
        rp = rp + d.packets_received;
        tp = tp + d.packets_sent;
        i = i + 1;
    }
    NetworkIO { bytes_received: rb, bytes_sent: tb, packets_received: rp, packets_sent: tp }
}

/// How many of the first `n` states contain `word`.
pub open spec fn count_with(states: Seq<Seq<char>>, word: Seq<char>, n: int) -> int
    decreases n,
{
    if n <= 0 {
        0
    } else {
        count_with(states, word, n - 1) + if contains_seq(states[n - 1], word) { 1int } else { 0int }
    }
}

/// Counts processes by the text of their state: running ones mention `Running`,
/// sleeping ones `Sleep`, zombies `Zombie`.
pub fn count_processes(states: &[String]) -> (p: ProcessInfo)
    ensures
        p.total_processes == states@.len(),
        p.running_processes == count_with(states@.map_values(|s: String| s@), "Running"@, states@.len() as int),
        p.sleeping_processes == count_with(states@.map_values(|s: String| s@), "Sleep"@, states@.len() as int),
        p.zombie_processes == count_with(states@.map_values(|s: String| s@), "Zombie"@, states@.len() as int),
{
    let ghost sv = states@.map_values(|s: String| s@);
    let running = chars_of("Running");
    let sleep = chars_of("Sleep");
    let zombie = chars_of("Zombie");
    let mut r: usize = 0;
    let mut s: usize = 0;
    let mut z: usize = 0;
    let mut i: usize = 0;
    while i < states.len()
        invariant
            sv == states@.map_values(|s: String| s@),
            running@ == "Running"@,
            sleep@ == "Sleep"@,
            zombie@ == "Zombie"@,
            i <= states@.len(),
            r == count_with(sv, "Running"@, i as int),
            s == count_with(sv, "Sleep"@, i as int),
            z == count_with(sv, "Zombie"@, i as int),
            r <= i && s <= i && z <= i,
        decreases states.len() - i,
    {
        let cs = chars_of(states[i].as_str());
        assert(cs@ == sv[i as int]);
        if contains(&cs, &running) {
            r = r + 1;
        }
        if contains(&cs, &sleep) {
            s = s + 1;
        }
        if contains(&cs, &zombie) {
            z = z + 1;
        }
        i = i + 1;
    }
    ProcessInfo { total_processes: states.len(), running_processes: r, sleeping_processes: s, zombie_processes: z }
}

} // verus!
