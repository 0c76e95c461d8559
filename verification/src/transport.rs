//! What the caller's transport needs to know: what an address is, where to
//! connect, and when a reply is complete.
use crate::command::denoted;
use crate::text::has_char;
use vstd::prelude::*;
use vstd::string::StringExecFns;

verus! {

/// Size of the buffer that a reply is read into, chunk by chunk.
pub const NET_BUFFER_SIZE: usize = 8192;

/// The address that `addr` stands for: itself where it names a port, and with
/// the default port 9999 where it does not.
pub open spec fn with_default_port(addr: Seq<char>) -> Seq<char> {
    if addr.contains(':') {
        addr
    } else {
        addr + ":9999"@
    }
}

/// The largest port number.
pub const MAX_PORT: u32 = 65535;

/// The position of the last colon in `addr`, or -1 where it holds none.
pub open spec fn last_colon(addr: Seq<char>) -> int
    decreases addr.len(),
{
    if addr.len() == 0 {
        -1
    } else if addr.last() == ':' {
        addr.len() - 1
    } else {
        last_colon(addr.drop_last())
    }
}

/// Whether `text` is a port: one or more decimal digits that denote a number
/// up to 65535.
pub open spec fn is_port(text: Seq<char>) -> bool {
    &&& text.len() > 0
    &&& forall|i: int| 0 <= i < text.len() ==> '0' <= #[trigger] text[i] <= '9'
    &&& denoted(text) <= MAX_PORT
}

/// Whether `addr` is the address of a plug: a host, which is any text that is
/// not empty, alone or followed by a colon and a port. The host ends at the
/// last colon.
pub open spec fn is_address(addr: Seq<char>) -> bool {
    let at = last_colon(addr);
    if at < 0 {
        addr.len() > 0
    } else {
        at > 0 && is_port(addr.skip(at + 1))
    }
}

/// The last colon is a colon with none after it, and there is one exactly
/// where the text holds a colon.
pub proof fn lemma_last_colon(addr: Seq<char>)
    ensures
        -1 <= last_colon(addr) < addr.len(),
        last_colon(addr) >= 0 <==> addr.contains(':'),
        last_colon(addr) >= 0 ==> addr[last_colon(addr)] == ':',
        forall|i: int| last_colon(addr) < i < addr.len() ==> addr[i] != ':',
    decreases addr.len(),
{
    if addr.len() > 0 {
        let front = addr.drop_last();
        lemma_last_colon(front);
        if addr.last() != ':' {
            assert forall|i: int| last_colon(addr) < i < addr.len() implies addr[i] != ':' by {
                if i < front.len() {
                    assert(addr[i] == front[i]);
                }
            }
            if front.contains(':') {
                let i = choose|i: int| 0 <= i < front.len() && front[i] == ':';
                assert(addr[i] == ':');
            }
            if addr.contains(':') {
                let i = choose|i: int| 0 <= i < addr.len() && addr[i] == ':';
                assert(front[i] == ':');
            }
        } else {
            assert(addr[addr.len() - 1] == ':');
        }
    }
}

/// Completing an address neither mends nor breaks it: the completed text is
/// an address exactly where the given one is.
pub proof fn lemma_completed_is_address(addr: Seq<char>)
    ensures
        is_address(with_default_port(addr)) <==> is_address(addr),
{
    lemma_last_colon(addr);
    if !addr.contains(':') {
        reveal_strlit(":9999");
        let port = ":9999"@.skip(1);
        let completed = addr + ":9999"@;
        assert(completed.drop_last() =~= addr + ":9999"@.take(4));
        assert(completed.drop_last().drop_last() =~= addr + ":9999"@.take(3));
        assert(completed.drop_last().drop_last().drop_last() =~= addr + ":9999"@.take(2));
        assert(completed.drop_last().drop_last().drop_last().drop_last() =~= addr + ":9999"@.take(
            1,
        ));
        reveal_with_fuel(last_colon, 6);
        assert(last_colon(completed) == addr.len());
        assert(completed.skip(addr.len() as int + 1) =~= port);
        assert(port.drop_last() =~= seq!['9', '9', '9']);
        assert(port.drop_last().drop_last() =~= seq!['9', '9']);
        assert(port.drop_last().drop_last().drop_last() =~= seq!['9']);
        assert(port.drop_last().drop_last().drop_last().drop_last() =~= Seq::<char>::empty());
        reveal_with_fuel(denoted, 6);
        assert(denoted(port) == 9999);
        assert(is_port(port));
    }
}

/// What a pass over the text behind the last colon has found of it: whether
/// all of it is digits, whether there is any of it, and the number it denotes
/// as long as that is a port number.
pub open spec fn port_so_far(
    port: Seq<char>,
    digits: bool,
    some: bool,
    over: bool,
    value: u32,
) -> bool {
    &&& some == (port.len() > 0)
    &&& digits == (forall|i: int| 0 <= i < port.len() ==> '0' <= #[trigger] port[i] <= '9')
    &&& digits && over ==> denoted(port) > MAX_PORT
    &&& digits && !over ==> value == denoted(port) && value <= MAX_PORT
    &&& value <= MAX_PORT || over
}

/// A completed address names a port, and completing it again changes nothing.
pub proof fn lemma_completed_address(addr: Seq<char>)
    ensures
        with_default_port(addr).contains(':'),
        with_default_port(with_default_port(addr)) == with_default_port(addr),
        addr.contains(':') ==> with_default_port(addr) == addr,
{
    reveal_strlit(":9999");
    if !addr.contains(':') {
        let completed = addr + ":9999"@;
        assert(completed[addr.len() as int] == ':');
    }
}

/// Completes an address: a text that holds no colon names no port, and gets
/// the default port 9999 appended; any other text is kept as it is.
pub fn complete_address(addr: &str) -> (address: String)
    ensures
        address@ == with_default_port(addr@),
{
    let mut address = addr.to_owned();
    if !has_char(addr, ':') {
        address.append(":9999");
    }
    address
}

/// One more character behind the last colon: what the pass has found of the
/// longer text follows from what it had found of the shorter one.
proof fn lemma_port_extended(
    port: Seq<char>,
    c: char,
    digits: bool,
    some: bool,
    over: bool,
    value: u32,
)
    requires
        port_so_far(port, digits, some, over, value),
    ensures
        !('0' <= c <= '9') ==> port_so_far(port.push(c), false, true, over, value),
        '0' <= c <= '9' && over ==> port_so_far(port.push(c), digits, true, true, value),
        '0' <= c <= '9' && !over && value * 10 + (c as u32 - 0x30) > MAX_PORT ==> port_so_far(
            port.push(c),
            digits,
            true,
            true,
            (value * 10 + (c as u32 - 0x30)) as u32,
        ),
        '0' <= c <= '9' && !over && value * 10 + (c as u32 - 0x30) <= MAX_PORT ==> port_so_far(
            port.push(c),
            digits,
            true,
            false,
            (value * 10 + (c as u32 - 0x30)) as u32,
        ),
{
    let longer = port.push(c);
    assert(longer.drop_last() =~= port);
    assert(longer.last() == c);
    assert(longer[port.len() as int] == c);
    let all = forall|i: int| 0 <= i < longer.len() ==> '0' <= #[trigger] longer[i] <= '9';
    if '0' <= c <= '9' {
        if digits {
            assert forall|i: int| 0 <= i < longer.len() implies '0' <= #[trigger] longer[i]
                <= '9' by {
                if i < port.len() {
                    assert(longer[i] == port[i]);
                }
            }
            assert(denoted(longer) == denoted(port) * 10 + (c as int - 0x30));
        } else {
            let i = choose|i: int| 0 <= i < port.len() && !('0' <= #[trigger] port[i] <= '9');
            assert(longer[i] == port[i]);
            assert(!all);
        }
    } else {
        assert(!all);
    }
}

/// Tells whether `addr` is the address of a plug: a host that is not empty,
/// alone or followed by a colon and a port number up to 65535.
pub fn is_valid_address(addr: &str) -> (valid: bool)
    ensures
        valid == is_address(addr@),
{
    let mut any = false;
    let mut seen_colon = false;
    let mut host = false;
    let mut digits = true;
    let mut some = false;
    let mut over = false;
    let mut value: u32 = 0;
    for c in it: addr.chars()
        invariant
            it.seq() == addr@,
            any == (it.index() > 0),
            seen_colon == (last_colon(addr@.take(it.index() as int)) >= 0),
            seen_colon ==> host == (last_colon(addr@.take(it.index() as int)) > 0),
            seen_colon ==> port_so_far(
                addr@.take(it.index() as int).skip(last_colon(addr@.take(it.index() as int)) + 1),
                digits,
                some,
                over,
                value,
            ),
    {
        let ghost i = it.index() as int;
        let ghost before = addr@.take(i);
        let ghost after = addr@.take(i + 1);
        proof {
            assert(after.drop_last() =~= before);
            assert(after.last() == c);
            lemma_last_colon(before);
        }
        if c == ':' {
            seen_colon = true;
            host = any;
            digits = true;
            some = false;
            over = false;
            value = 0;
            proof {
                assert(after.skip(last_colon(after) + 1) =~= Seq::<char>::empty());
            }
        } else if seen_colon {
            let ghost port = before.skip(last_colon(before) + 1);
            proof {
                assert(after.skip(last_colon(after) + 1) =~= port.push(c));
                lemma_port_extended(port, c, digits, some, over, value);
            }
            some = true;
            if c >= '0' && c <= '9' {
                if !over {
                    value = value * 10 + (c as u32 - 0x30);
                    if value > MAX_PORT {
                        over = true;
                    }
                }
            } else {
                digits = false;
            }
        }
        any = true;
    }
    proof {
        assert(addr@.take(addr@.len() as int) =~= addr@);
    }
    if seen_colon {
        host && some && digits && !over
    } else {
        any
    }
}

/// The reply as far as it has been received.
pub struct Receiver {
    received: Vec<u8>,
}

impl View for Receiver {
    type V = Seq<u8>;

    closed spec fn view(&self) -> Seq<u8> {
        self.received@
    }
}

impl Receiver {
    /// A receiver that has received nothing yet.
    pub fn new() -> (receiver: Receiver)
        ensures
            receiver@ == Seq::<u8>::empty(),
    {
        Receiver { received: Vec::new() }
    }

    /// Takes the bytes that one read into a buffer of [`NET_BUFFER_SIZE`]
    /// bytes returned, and tells whether to read again: a read that filled the
    /// buffer may have left more behind, a shorter one ends the reply.
    pub fn accept(&mut self, chunk: &[u8]) -> (more: bool)
        ensures
            final(self)@ == old(self)@ + chunk@,
            more == (chunk@.len() >= NET_BUFFER_SIZE),
    {
        let mut i: usize = 0;
        while i < chunk.len()
            invariant
                i <= chunk@.len(),
                self.received@ == old(self).received@ + chunk@.take(i as int),
            decreases chunk@.len() - i,
        {
            self.received.push(chunk[i]);
            proof {
                assert(chunk@.take(i + 1) =~= chunk@.take(i as int).push(chunk@[i as int]));
            }
            i = i + 1;
        }
        proof {
            assert(chunk@.take(i as int) =~= chunk@);
        }
        chunk.len() >= NET_BUFFER_SIZE
    }

    /// The bytes received so far.
    pub fn bytes(&self) -> (received: &[u8])
        ensures
            received@ == self@,
    {
        self.received.as_slice()
    }

    /// Gives up the receiver for the bytes it has received.
    pub fn into_bytes(self) -> (received: Vec<u8>)
        ensures
            received@ == self@,
    {
        self.received
    }
}

} // verus!
