use vstd::prelude::*;

use crate::types::OpError;

verus! {

/// Info about a supported crypto.
#[derive(Clone, Debug)]
pub struct CryptoInfo {
    pub symbol: String,
    pub name: String,
    pub network: String,
    pub rpc_url: String,
    pub min_iq: usize,
    pub api_id: String,
    pub contract_address: Option<String>,
    pub decimals: u8,
}

/// Number of supported cryptos.
pub const CRYPTO_COUNT: usize = 10;

/// Symbol of the catalogue entry at the given position.
pub open spec fn crypto_symbol_at(i: int) -> Seq<char> {
    if i == 0 {
        "SHIB"@
    } else if i == 1 {
        "PEPE"@
    } else if i == 2 {
        "TURBO"@
    } else if i == 3 {
        "CORGIAI"@
    } else if i == 4 {
        "FLOKI"@
    } else if i == 5 {
        "ETH"@
    } else if i == 6 {
        "BNB"@
    } else if i == 7 {
        "SKL"@
    } else if i == 8 {
        "POL"@
    } else {
        "WAVAX"@
    }
}

/// Skill score the catalogue entry at the given position asks for.
pub open spec fn crypto_min_iq_at(i: int) -> int {
    if i == 0 || i == 1 || i == 2 {
        200
    } else if i == 3 || i == 4 {
        300
    } else if i == 5 || i == 6 {
        400
    } else {
        500
    }
}

/// Token decimals of the catalogue entry at the given position.
pub open spec fn crypto_decimals_at(i: int) -> int {
    if i == 4 {
        9
    } else {
        18
    }
}

/// Whether the catalogue entry at the given position is an ERC-20 token (has
/// a contract address) rather than a native coin.
pub open spec fn crypto_has_contract_at(i: int) -> bool {
    !(i == 5 || i == 6)
}

/// One catalogue entry agrees with the fixed table at its position.
pub open spec fn crypto_entry_ok(c: CryptoInfo, i: int) -> bool {
    &&& c.symbol@ == crypto_symbol_at(i)
    &&& c.min_iq as int == crypto_min_iq_at(i)
    &&& c.decimals as int == crypto_decimals_at(i)
    &&& (c.contract_address is Some <==> crypto_has_contract_at(i))
}

/// Position of a symbol in the catalogue, or -1 when it is not supported.
pub open spec fn crypto_index_of(sym: Seq<char>) -> int {
    if sym == "SHIB"@ {
        0
    } else if sym == "PEPE"@ {
        1
    } else if sym == "TURBO"@ {
        2
    } else if sym == "CORGIAI"@ {
        3
    } else if sym == "FLOKI"@ {
        4
    } else if sym == "ETH"@ {
        5
    } else if sym == "BNB"@ {
        6
    } else if sym == "SKL"@ {
        7
    } else if sym == "POL"@ {
        8
    } else if sym == "WAVAX"@ {
        9
    } else {
        -1
    }
}

/// A symbol that matches the table at position `i` and differs from every
/// earlier position is found exactly there.
pub proof fn lemma_crypto_index_of(sym: Seq<char>, i: int)
    requires
        0 <= i < CRYPTO_COUNT,
        crypto_symbol_at(i) == sym,
        forall|t: int| 0 <= t < i ==> crypto_symbol_at(t) != sym,
    ensures
        crypto_index_of(sym) == i,
{
    assert(crypto_symbol_at(0) == "SHIB"@);
    assert(crypto_symbol_at(1) == "PEPE"@);
    assert(crypto_symbol_at(2) == "TURBO"@);
    assert(crypto_symbol_at(3) == "CORGIAI"@);
    assert(crypto_symbol_at(4) == "FLOKI"@);
    assert(crypto_symbol_at(5) == "ETH"@);
    assert(crypto_symbol_at(6) == "BNB"@);
    assert(crypto_symbol_at(7) == "SKL"@);
    assert(crypto_symbol_at(8) == "POL"@);
    assert(crypto_symbol_at(9) == "WAVAX"@);
}

/// A symbol that differs from the table at every position is not in the
/// catalogue.
pub proof fn lemma_crypto_index_of_none(sym: Seq<char>)
    requires
        forall|t: int| 0 <= t < CRYPTO_COUNT ==> crypto_symbol_at(t) != sym,
    ensures
        crypto_index_of(sym) == -1,
{
    assert(crypto_symbol_at(0) == "SHIB"@);
    assert(crypto_symbol_at(1) == "PEPE"@);
    assert(crypto_symbol_at(2) == "TURBO"@);
    assert(crypto_symbol_at(3) == "CORGIAI"@);
    assert(crypto_symbol_at(4) == "FLOKI"@);
    assert(crypto_symbol_at(5) == "ETH"@);
    assert(crypto_symbol_at(6) == "BNB"@);
    assert(crypto_symbol_at(7) == "SKL"@);
    assert(crypto_symbol_at(8) == "POL"@);
    assert(crypto_symbol_at(9) == "WAVAX"@);
}

/// Static catalogue of supported cryptos.
pub fn all_cryptos() -> (v: Vec<CryptoInfo>)
    ensures
        v@.len() == CRYPTO_COUNT,
        forall|i: int| 0 <= i < CRYPTO_COUNT ==> crypto_entry_ok(#[trigger] v@[i], i),
{
    let mut v: Vec<CryptoInfo> = Vec::new();
    v.push(
        CryptoInfo {
            symbol: "SHIB".to_owned(),
            name: "Shiba Inu".to_owned(),
            network: "ethereum".to_owned(),
            rpc_url: "https://cloudflare-eth.com".to_owned(),
            min_iq: 200,
            api_id: "shiba-inu".to_owned(),
            contract_address: Some("0x95ad61b0a150d79219dcf64e1e6cc01f0b64c4ce".to_owned()),
            decimals: 18,
        },
    );
    v.push(
        CryptoInfo {
            symbol: "PEPE".to_owned(),
            name: "Pepe".to_owned(),
            network: "ethereum".to_owned(),
            rpc_url: "https://cloudflare-eth.com".to_owned(),
            min_iq: 200,
            api_id: "pepe".to_owned(),
            contract_address: Some("0x6982508145454ce325ddbe47a25d4ec3d2311933".to_owned()),
            decimals: 18,
        },
    );
    v.push(
        CryptoInfo {
            symbol: "TURBO".to_owned(),
            name: "Turbo".to_owned(),
            network: "ethereum".to_owned(),
            rpc_url: "https://cloudflare-eth.com".to_owned(),
            min_iq: 200,
            api_id: "turbo".to_owned(),
            contract_address: Some("0xa35923162c49cf95e6bf26623385eb431ad920d3".to_owned()),
            decimals: 18,
        },
    );
    v.push(
        CryptoInfo {
            symbol: "CORGIAI".to_owned(),
            name: "CorgiAI".to_owned(),
            network: "cronos".to_owned(),
            rpc_url: "https://evm.cronos.org/".to_owned(),
            min_iq: 300,
            api_id: "corgiai".to_owned(),
            contract_address: Some("0x6b431b8a964bfcf28191b07c91189ff4403957d0".to_owned()),
            decimals: 18,
        },
    );
    v.push(
        CryptoInfo {
            symbol: "FLOKI".to_owned(),
            name: "Floki".to_owned(),
            network: "ethereum".to_owned(),
            rpc_url: "https://cloudflare-eth.com".to_owned(),
            min_iq: 300,
            api_id: "floki".to_owned(),
            contract_address: Some("0xcf0c122c6b73ff809c693db761e7baebe62b6a2e".to_owned()),
            decimals: 9,
        },
    );
    v.push(
        CryptoInfo {
            symbol: "ETH".to_owned(),
            name: "Ethereum".to_owned(),
            network: "ethereum".to_owned(),
            rpc_url: "https://cloudflare-eth.com".to_owned(),
            min_iq: 400,
            api_id: "ethereum".to_owned(),
            contract_address: None,
            decimals: 18,
        },
    );
    v.push(
        CryptoInfo {
            symbol: "BNB".to_owned(),
            name: "BNB".to_owned(),
            network: "bsc".to_owned(),
            rpc_url: "https://bsc-dataseed.binance.org/".to_owned(),
            min_iq: 400,
            api_id: "binancecoin".to_owned(),
            contract_address: None,
            decimals: 18,
        },
    );
    v.push(
        CryptoInfo {
            symbol: "SKL".to_owned(),
            name: "Skale".to_owned(),
            network: "ethereum".to_owned(),
            rpc_url: "https://cloudflare-eth.com".to_owned(),
            min_iq: 500,
            api_id: "skale".to_owned(),
            contract_address: Some("0x00c83aecc790e8a4453e5dd3b0b4b3680501a7a7".to_owned()),
            decimals: 18,
        },
    );
    v.push(
        CryptoInfo {
            symbol: "POL".to_owned(),
            name: "Polygon".to_owned(),
            network: "ethereum".to_owned(),
            rpc_url: "https://cloudflare-eth.com".to_owned(),
            min_iq: 500,
            api_id: "polygon".to_owned(),
            contract_address: Some("0x455e53CBB86018Ac2B8092FdCd39d8444aFFC3F6".to_owned()),
            decimals: 18,
        },
    );
    v.push(
        CryptoInfo {
            symbol: "WAVAX".to_owned(),
            name: "Wrapped AVAX".to_owned(),
            network: "avalanche".to_owned(),
            rpc_url: "https://api.avax.network/ext/bc/C/rpc".to_owned(),
            min_iq: 500,
            api_id: "avalanche-2".to_owned(),
            contract_address: Some("0xB31f66AA3C1e785363F0875A1B74E27b85FD66c7".to_owned()),
            decimals: 18,
        },
    );
    v
}

/// Looks a symbol up in the catalogue: the entry carrying it, or None when it
/// is not supported.
pub fn find_crypto(symbol: &String) -> (r: Option<CryptoInfo>)
    ensures
        crypto_index_of(symbol@) >= 0 ==> (match r {
            Some(c) => crypto_entry_ok(c, crypto_index_of(symbol@)),
            None => false,
        }),
        crypto_index_of(symbol@) < 0 ==> r is None,
{
    let cryptos = all_cryptos();
    let mut i: usize = 0;
    while i < cryptos.len()
        invariant
            0 <= i <= cryptos@.len(),
            cryptos@.len() == CRYPTO_COUNT,
            forall|t: int| 0 <= t < CRYPTO_COUNT ==> crypto_entry_ok(#[trigger] cryptos@[t], t),
            forall|t: int| 0 <= t < i ==> crypto_symbol_at(t) != symbol@,
        decreases cryptos@.len() - i,
    {
        let c = &cryptos[i];
        if *(&c.symbol) == *symbol {
            let picked = CryptoInfo {
                symbol: c.symbol.clone(),
                name: c.name.clone(),
                network: c.network.clone(),
                rpc_url: c.rpc_url.clone(),
                min_iq: c.min_iq,
                api_id: c.api_id.clone(),
                contract_address: match &c.contract_address {
                    Some(a) => Some(a.clone()),
                    None => None,
                },
                decimals: c.decimals,
            };
            proof {
                lemma_crypto_index_of(symbol@, i as int);
            }
            return Some(picked);
        }
        i = i + 1;
    }
    proof {
        lemma_crypto_index_of_none(symbol@);
    }
    None
}

/// Validity of a wallet address as far as this core checks it: it starts with
/// the two characters `0x`.
pub open spec fn addr_wellformed(a: Seq<char>) -> bool {
    a.len() >= 2 && a[0] == '0' && a[1] == 'x'
}

/// Checks the `0x` prefix of a wallet address.
pub fn address_wellformed(addr: &String) -> (r: bool)
    ensures
        r == addr_wellformed(addr@),
{
    let s = addr.as_str();
    if s.unicode_len() >= 2 {
        let c0 = s.get_char(0);
        let c1 = s.get_char(1);
        c0 == '0' && c1 == 'x'
    } else {
        false
    }
}

/// Whether a player's skill score and a symbol pass the exchange eligibility
/// rules: the symbol must be in the catalogue and the score at or above what
/// the entry asks for.
pub open spec fn exchange_eligibility(sym: Seq<char>, iq: int) -> Result<int, OpError> {
    let idx = crypto_index_of(sym);
    if idx < 0 {
        Err(OpError::CryptoNotAvailable)
    } else if iq < crypto_min_iq_at(idx) {
        Err(OpError::IqTooLow)
    } else {
        Ok(idx)
    }
}

/// Validates a requested exchange or quote against the catalogue: rejects an
/// unsupported symbol, then a too-low skill score; otherwise hands back the
/// catalogue entry.
pub fn check_crypto_eligibility(symbol: &String, iq: usize) -> (r: Result<CryptoInfo, OpError>)
    ensures
        match r {
            Ok(c) => exchange_eligibility(symbol@, iq as int) is Ok && crypto_entry_ok(
                c,
                crypto_index_of(symbol@),
            ),
            Err(e) => exchange_eligibility(symbol@, iq as int) == Err::<int, OpError>(e),
        },
{
    match find_crypto(symbol) {
        None => Err(OpError::CryptoNotAvailable),
        Some(c) => {
            if iq < c.min_iq {
                Err(OpError::IqTooLow)
            } else {
                Ok(c)
            }
        },
    }
}

} // verus!
