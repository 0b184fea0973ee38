use vstd::prelude::*;

verus! {

/// Where the search index is and which port the API listens on.
#[derive(Debug, Clone)]
pub struct Config {
    pub elastic_search_host: String,
    pub elastic_search_index: String,
    pub port: u16,
}

/// The value of a run of ASCII decimal digits.
pub open spec fn digits_value(digits: Seq<u8>) -> int
    decreases digits.len(),
{
    if digits.len() == 0 {
        0
    } else {
        digits_value(digits.drop_last()) * 10 + (digits.last() - 48)
    }
}

/// Every byte is an ASCII decimal digit.
pub open spec fn all_digits(digits: Seq<u8>) -> bool {
    forall|i: int| 0 <= i < digits.len() ==> 48 <= #[trigger] digits[i] <= 57
}

/// The port a text names, as `u16` reads it: an optional `+`, then one or
/// more ASCII digits whose value fits in 16 bits.
pub open spec fn port_of(text: Seq<char>) -> Option<u16> {
    let bytes = vstd::utf8::encode_utf8(text);
    let digits = if bytes.len() > 0 && bytes[0] == 43 {
        bytes.drop_first()
    } else {
        bytes
    };
    if digits.len() > 0 && all_digits(digits) && digits_value(digits) <= 65535 {
        Some(digits_value(digits) as u16)
    } else {
        None
    }
}

proof fn lemma_digits_value_grows(digits: Seq<u8>, i: int)
    requires
        all_digits(digits),
        0 <= i <= digits.len(),
    ensures
        digits_value(digits.take(i)) <= digits_value(digits),
        0 <= digits_value(digits.take(i)),
    decreases digits.len() - i,
{
    if i < digits.len() {
        lemma_digits_value_grows(digits, i + 1);
        assert(digits.take(i + 1).drop_last() =~= digits.take(i));
        assert(digits.take(i + 1).last() == digits[i]);
    } else {
        assert(digits.take(i) =~= digits);
    }
    lemma_digits_value_nonnegative(digits.take(i));
}

proof fn lemma_digits_value_nonnegative(digits: Seq<u8>)
    requires
        all_digits(digits),
    ensures
        0 <= digits_value(digits),
    decreases digits.len(),
{
    if digits.len() > 0 {
        assert(all_digits(digits.drop_last())) by {
            assert forall|i: int| 0 <= i < digits.drop_last().len() implies 48 <= #[trigger] digits.drop_last()[i]
                <= 57 by {
                assert(digits.drop_last()[i] == digits[i]);
            }
        }
        lemma_digits_value_nonnegative(digits.drop_last());
    }
}

/// Reads a port number as `u16` reads decimal text.
pub fn parse_port(text: &str) -> (port: Option<u16>)
    ensures
        port == port_of(text@),
{
    let bytes = text.as_bytes();
    let ghost all = bytes@;
    let start: usize = if bytes.len() > 0 && bytes[0] == 43 {
        1
    } else {
        0
    };
    let ghost digits = if all.len() > 0 && all[0] == 43 {
        all.drop_first()
    } else {
        all
    };
    assert(digits =~= all.skip(start as int));
    if start >= bytes.len() {
        return None;
    }
    let mut value: u32 = 0;
    let mut i: usize = start;
    while i < bytes.len()
        invariant
            all == bytes@,
            all == vstd::utf8::encode_utf8(text@),
            digits == (if all.len() > 0 && all[0] == 43 {
                all.drop_first()
            } else {
                all
            }),
            start <= i <= bytes.len(),
            start < bytes.len(),
            digits == all.skip(start as int),
            all_digits(digits.take(i - start)),
            value == digits_value(digits.take(i - start)),
            value <= 65535,
        decreases bytes.len() - i,
    {
        let b = bytes[i];
        assert(digits[i - start] == b);
        if b < 48 || b > 57 {
            assert(!all_digits(digits));
            return None;
        }
        assert(digits.take(i - start + 1).drop_last() =~= digits.take(i - start));
        assert(all_digits(digits.take(i - start + 1))) by {
            assert forall|k: int| 0 <= k < digits.take(i - start + 1).len() implies 48
                <= #[trigger] digits.take(i - start + 1)[k] <= 57 by {
                if k < i - start {
                    assert(digits.take(i - start + 1)[k] == digits.take(i - start)[k]);
                }
            }
        }
        let next = value * 10 + (b - 48) as u32;
        if next > 65535 {
            proof {
                if all_digits(digits) {
                    lemma_digits_value_grows(digits, i - start + 1);
                }
            }
            return None;
        }
        value = next;
        i = i + 1;
    }
    assert(digits.take(i - start) =~= digits);
    Some(value as u16)
}

impl Config {
    /// The configuration from the values of `ELASTIC_SEARCH_HOST`,
    /// `ELASTIC_SEARCH_INDEX` and `PORT`: the host defaults to
    /// `http://localhost:9200`, the index to `catalog`, the port to 3000 when
    /// it is missing or not a port number.
    pub fn from_values(host: Option<String>, index: Option<String>, port: Option<String>) -> (config: Self)
        ensures
            config.elastic_search_host@ == match host {
                Some(h) => h@,
                None => "http://localhost:9200"@,
            },
            config.elastic_search_index@ == match index {
                Some(i) => i@,
                None => "catalog"@,
            },
            config.port == match port {
                Some(p) => match port_of(p@) {
                    Some(n) => n,
                    None => 3000,
                },
                None => 3000,
            },
    {
        let elastic_search_host = match host {
            Some(h) => h,
            None => String::from_str("http://localhost:9200"),
        };
        let elastic_search_index = match index {
            Some(i) => i,
            None => String::from_str("catalog"),
        };
        let port = match port {
            Some(p) => match parse_port(p.as_str()) {
                Some(n) => n,
                None => 3000,
            },
            None => 3000,
        };
        Config { elastic_search_host, elastic_search_index, port }
    }
}

} // verus!
