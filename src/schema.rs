//! The table of known `bitcoin.conf` keys.
use crate::config::{
    entry_model, holds_entry, lemma_present_key_enabled, lines_of, lookup, parse_line, parse_model,
    sets_key, ConfigSchema, ConfigType, EntryModel, SchemaModel,
};
use vstd::prelude::*;

verus! {

/// One row of the table, as a model.
pub open spec fn row(
    key: &str,
    value_type: ConfigType,
    section: &str,
    description: &str,
    default: &str,
) -> SchemaModel {
    SchemaModel {
        key: key@,
        value_type,
        section: section@,
        description: description@,
        default: default@,
    }
}

/// The known keys, in the order in which they are listed.
pub open spec fn default_schema_model() -> Seq<SchemaModel> {
    seq![
        row("datadir", ConfigType::String, "Core",
            "Directory to store data.",
            ""),
        row("txindex", ConfigType::Boolean, "Core",
            "Maintain a full transaction index.",
            "0"),
        row("prune", ConfigType::Integer, "Core",
            "Reduce storage requirements by enabling pruning (deleting) of old blocks. 0 = disable.",
            "0"),
        row("blocksonly", ConfigType::Boolean, "Core",
            "Reject transactions from network peers.",
            "0"),
        row("dbcache", ConfigType::Integer, "Core",
            "Database cache size in megabytes.",
            "450"),
        row("maxmempool", ConfigType::Integer, "Core",
            "Keep the transaction memory pool below <n> megabytes.",
            "300"),
        row("pid", ConfigType::String, "Core",
            "Specify pid file. Relative paths will be prefixed by a net-specific datadir location.",
            "bitcoind.pid"),
        row("testnet", ConfigType::Boolean, "Network",
            "Run on the test network.",
            "0"),
        row("regtest", ConfigType::Boolean, "Network",
            "Run on the regression test network.",
            "0"),
        row("signet", ConfigType::Boolean, "Network",
            "Run on the signet network.",
            "0"),
        row("listen", ConfigType::Boolean, "Network",
            "Accept connections from outside.",
            "1"),
        row("bind", ConfigType::String, "Network",
            "Bind to given address and always listen on it. Use [host]:port notation for IPv6.",
            "0.0.0.0"),
        row("port", ConfigType::Integer, "Network",
            "Listen for connections on <port>.",
            "8333"),
        row("maxconnections", ConfigType::Integer, "Network",
            "Maintain at most <n> connections to peers.",
            "125"),
        row("proxy", ConfigType::String, "Network",
            "Connect through SOCKS5 proxy.",
            ""),
        row("onion", ConfigType::String, "Network",
            "Use separate SOCKS5 proxy to reach peers via Tor onion services.",
            ""),
        row("upnp", ConfigType::Boolean, "Network",
            "Use UPnP to map the listening port.",
            "0"),
        row("server", ConfigType::Boolean, "RPC",
            "Accept command line and JSON-RPC commands.",
            "0"),
        row("rpcuser", ConfigType::String, "RPC",
            "Username for JSON-RPC connections.",
            ""),
        row("rpcpassword", ConfigType::String, "RPC",
            "Password for JSON-RPC connections.",
            ""),
        row("rpcauth", ConfigType::String, "RPC",
            "Username and hashed password for JSON-RPC connections.",
            ""),
        row("rpcport", ConfigType::Integer, "RPC",
            "Listen for JSON-RPC connections on <port>.",
            "8332"),
        row("rpcbind", ConfigType::String, "RPC",
            "Bind to given address to listen for JSON-RPC connections.",
            ""),
        row("rpcallowip", ConfigType::String, "RPC",
            "Allow JSON-RPC connections from specified source. Valid for <ip> are a single IP (e.g. 1.2.3.4), a network/netmask (e.g. 1.2.3.4/255.255.255.0) or a network/CIDR (e.g. 1.2.3.4/24).",
            ""),
        row("rpcthreads", ConfigType::Integer, "RPC",
            "Set the number of threads to service RPC calls.",
            "4"),
        row("disablewallet", ConfigType::Boolean, "Wallet",
            "Do not load the wallet and disable wallet RPC calls.",
            "0"),
        row("fallbackfee", ConfigType::String, "Wallet",
            "A fee rate (in BTC/kvB) that will be used when fee estimation has insufficient data.",
            "0.00021"),
        row("discardfee", ConfigType::String, "Wallet",
            "The fee rate (in BTC/kvB) that indicates your tolerance for discarding change by adding it to the fee.",
            "0.0001"),
        row("mintxfee", ConfigType::String, "Wallet",
            "Fees (in BTC/kvB) smaller than this are considered zero fee for transaction creation.",
            "0.00001"),
        row("paytxfee", ConfigType::String, "Wallet",
            "Fee (in BTC/kvB) to add to transactions you send.",
            "0.00"),
        row("debug", ConfigType::String, "Debug",
            "Output debugging information (default: 0, supplying <category> is optional).",
            ""),
        row("logips", ConfigType::Boolean, "Debug",
            "Include IP addresses in debug output.",
            "0"),
        row("shrinkdebugfile", ConfigType::Boolean, "Debug",
            "Shrink debug.log file on client startup (default: 1 when no -debug).",
            "1"),
        row("blockmaxweight", ConfigType::Integer, "Mining",
            "Set maximum BIP141 block weight (default: 3996000).",
            "3996000"),
        row("minrelaytxfee", ConfigType::String, "Mining",
            "Fees (in BTC/kvB) smaller than this are considered zero fee for relaying, mining and transaction creation.",
            "0.00001"),
        row("zmqpubhashblock", ConfigType::String, "ZMQ",
            "Enable publish hash block in <address>.",
            "tcp://127.0.0.1:28332"),
        row("zmqpubhashtx", ConfigType::String, "ZMQ",
            "Enable publish hash transaction in <address>.",
            "tcp://127.0.0.1:28332"),
        row("zmqpubrawblock", ConfigType::String, "ZMQ",
            "Enable publish raw block in <address>.",
            "tcp://127.0.0.1:28332"),
        row("zmqpubrawtx", ConfigType::String, "ZMQ",
            "Enable publish raw transaction in <address>.",
            "tcp://127.0.0.1:28332"),
    ]
}

/// The rows of `schema` before row `i` have other keys.
pub open spec fn key_first_at(schema: Seq<SchemaModel>, i: int) -> bool {
    forall|j: int| 0 <= j < i ==> schema[j].key != schema[i].key
}

proof fn lemma_lookup_first(schema: Seq<SchemaModel>, i: int)
    requires
        0 <= i < schema.len(),
        key_first_at(schema, i),
    ensures
        lookup(schema, schema[i].key) == Some(schema[i]),
    decreases i,
{
    if i > 0 {
        let rest = schema.drop_first();
        assert(rest[i - 1] == schema[i]);
        assert forall|j: int| 0 <= j < i - 1 implies (#[trigger] rest[j]).key != rest[i - 1].key by {
            assert(rest[j] == schema[j + 1]);
        }
        lemma_lookup_first(rest, i - 1);
    }
}

proof fn lemma_key_first_1()
    ensures
        key_first_at(default_schema_model(), 1),
{
    let m = default_schema_model();
    reveal_strlit("txindex");
    reveal_strlit("datadir");
    assert(m[0].key[0] != m[1].key[0]);
}

proof fn lemma_key_first_2()
    ensures
        key_first_at(default_schema_model(), 2),
{
    let m = default_schema_model();
    reveal_strlit("prune");
    reveal_strlit("datadir");
    reveal_strlit("txindex");
    assert(m[0].key.len() != m[2].key.len());
    assert(m[1].key.len() != m[2].key.len());
}

proof fn lemma_key_first_3()
    ensures
        key_first_at(default_schema_model(), 3),
{
    let m = default_schema_model();
    reveal_strlit("blocksonly");
    reveal_strlit("datadir");
    reveal_strlit("txindex");
    reveal_strlit("prune");
    assert(m[0].key.len() != m[3].key.len());
    assert(m[1].key.len() != m[3].key.len());
    assert(m[2].key.len() != m[3].key.len());
}

proof fn lemma_key_first_4()
    ensures
        key_first_at(default_schema_model(), 4),
{
    let m = default_schema_model();
    reveal_strlit("dbcache");
    reveal_strlit("datadir");
    reveal_strlit("txindex");
    reveal_strlit("prune");
    reveal_strlit("blocksonly");
    assert(m[0].key[1] != m[4].key[1]);
    assert(m[1].key[0] != m[4].key[0]);
    assert(m[2].key.len() != m[4].key.len());
    assert(m[3].key.len() != m[4].key.len());
}

proof fn lemma_key_first_5()
    ensures
        key_first_at(default_schema_model(), 5),
{
    let m = default_schema_model();
    reveal_strlit("maxmempool");
    reveal_strlit("datadir");
    reveal_strlit("txindex");
    reveal_strlit("prune");
    reveal_strlit("blocksonly");
    reveal_strlit("dbcache");
    assert(m[0].key.len() != m[5].key.len());
    assert(m[1].key.len() != m[5].key.len());
    assert(m[2].key.len() != m[5].key.len());
    assert(m[3].key[0] != m[5].key[0]);
    assert(m[4].key.len() != m[5].key.len());
}

proof fn lemma_key_first_6()
    ensures
        key_first_at(default_schema_model(), 6),
{
    let m = default_schema_model();
    reveal_strlit("pid");
    reveal_strlit("datadir");
    reveal_strlit("txindex");
    reveal_strlit("prune");
    reveal_strlit("blocksonly");
    reveal_strlit("dbcache");
    reveal_strlit("maxmempool");
    assert(m[0].key.len() != m[6].key.len());
    assert(m[1].key.len() != m[6].key.len());
    assert(m[2].key.len() != m[6].key.len());
    assert(m[3].key.len() != m[6].key.len());
    assert(m[4].key.len() != m[6].key.len());
    assert(m[5].key.len() != m[6].key.len());
}

proof fn lemma_key_first_7()
    ensures
        key_first_at(default_schema_model(), 7),
{
    let m = default_schema_model();
    reveal_strlit("testnet");
    reveal_strlit("datadir");
    reveal_strlit("txindex");
    reveal_strlit("prune");
    reveal_strlit("blocksonly");
    reveal_strlit("dbcache");
    reveal_strlit("maxmempool");
    reveal_strlit("pid");
    assert(m[0].key[0] != m[7].key[0]);
    assert(m[1].key[1] != m[7].key[1]);
    assert(m[2].key.len() != m[7].key.len());
    assert(m[3].key.len() != m[7].key.len());
    assert(m[4].key[0] != m[7].key[0]);
    assert(m[5].key.len() != m[7].key.len());
    assert(m[6].key.len() != m[7].key.len());
}

proof fn lemma_key_first_8()
    ensures
        key_first_at(default_schema_model(), 8),
{
    let m = default_schema_model();
    reveal_strlit("regtest");
    reveal_strlit("datadir");
    reveal_strlit("txindex");
    reveal_strlit("prune");
    reveal_strlit("blocksonly");
    reveal_strlit("dbcache");
    reveal_strlit("maxmempool");
    reveal_strlit("pid");
    reveal_strlit("testnet");
    assert(m[0].key[0] != m[8].key[0]);
    assert(m[1].key[0] != m[8].key[0]);
    assert(m[2].key.len() != m[8].key.len());
    assert(m[3].key.len() != m[8].key.len());
    assert(m[4].key[0] != m[8].key[0]);
    assert(m[5].key.len() != m[8].key.len());
    assert(m[6].key.len() != m[8].key.len());
    assert(m[7].key[0] != m[8].key[0]);
}

proof fn lemma_key_first_9()
    ensures
        key_first_at(default_schema_model(), 9),
{
    let m = default_schema_model();
    reveal_strlit("signet");
    reveal_strlit("datadir");
    reveal_strlit("txindex");
    reveal_strlit("prune");
    reveal_strlit("blocksonly");
    reveal_strlit("dbcache");
    reveal_strlit("maxmempool");
    reveal_strlit("pid");
    reveal_strlit("testnet");
    reveal_strlit("regtest");
    assert(m[0].key.len() != m[9].key.len());
    assert(m[1].key.len() != m[9].key.len());
    assert(m[2].key.len() != m[9].key.len());
    assert(m[3].key.len() != m[9].key.len());
    assert(m[4].key.len() != m[9].key.len());
    assert(m[5].key.len() != m[9].key.len());
    assert(m[6].key.len() != m[9].key.len());
    assert(m[7].key.len() != m[9].key.len());
    assert(m[8].key.len() != m[9].key.len());
}

proof fn lemma_key_first_10()
    ensures
        key_first_at(default_schema_model(), 10),
{
    let m = default_schema_model();
    reveal_strlit("listen");
    reveal_strlit("datadir");
    reveal_strlit("txindex");
    reveal_strlit("prune");
    reveal_strlit("blocksonly");
    reveal_strlit("dbcache");
    reveal_strlit("maxmempool");
    reveal_strlit("pid");
    reveal_strlit("testnet");
    reveal_strlit("regtest");
    reveal_strlit("signet");
    assert(m[0].key.len() != m[10].key.len());
    assert(m[1].key.len() != m[10].key.len());
    assert(m[2].key.len() != m[10].key.len());
    assert(m[3].key.len() != m[10].key.len());
    assert(m[4].key.len() != m[10].key.len());
    assert(m[5].key.len() != m[10].key.len());
    assert(m[6].key.len() != m[10].key.len());
    assert(m[7].key.len() != m[10].key.len());
    assert(m[8].key.len() != m[10].key.len());
    assert(m[9].key[0] != m[10].key[0]);
}

proof fn lemma_key_first_11()
    ensures
        key_first_at(default_schema_model(), 11),
{
    let m = default_schema_model();
    reveal_strlit("bind");
    reveal_strlit("datadir");
    reveal_strlit("txindex");
    reveal_strlit("prune");
    reveal_strlit("blocksonly");
    reveal_strlit("dbcache");
    reveal_strlit("maxmempool");
    reveal_strlit("pid");
    reveal_strlit("testnet");
    reveal_strlit("regtest");
    reveal_strlit("signet");
    reveal_strlit("listen");
    assert(m[0].key.len() != m[11].key.len());
    assert(m[1].key.len() != m[11].key.len());
    assert(m[2].key.len() != m[11].key.len());
    assert(m[3].key.len() != m[11].key.len());
    assert(m[4].key.len() != m[11].key.len());
    assert(m[5].key.len() != m[11].key.len());
    assert(m[6].key.len() != m[11].key.len());
    assert(m[7].key.len() != m[11].key.len());
    assert(m[8].key.len() != m[11].key.len());
    assert(m[9].key.len() != m[11].key.len());
    assert(m[10].key.len() != m[11].key.len());
}

proof fn lemma_key_first_12()
    ensures
        key_first_at(default_schema_model(), 12),
{
    let m = default_schema_model();
    reveal_strlit("port");
    reveal_strlit("datadir");
    reveal_strlit("txindex");
    reveal_strlit("prune");
    reveal_strlit("blocksonly");
    reveal_strlit("dbcache");
    reveal_strlit("maxmempool");
    reveal_strlit("pid");
    reveal_strlit("testnet");
    reveal_strlit("regtest");
    reveal_strlit("signet");
    reveal_strlit("listen");
    reveal_strlit("bind");
    assert(m[0].key.len() != m[12].key.len());
    assert(m[1].key.len() != m[12].key.len());
    assert(m[2].key.len() != m[12].key.len());
    assert(m[3].key.len() != m[12].key.len());
    assert(m[4].key.len() != m[12].key.len());
    assert(m[5].key.len() != m[12].key.len());
    assert(m[6].key.len() != m[12].key.len());
    assert(m[7].key.len() != m[12].key.len());
    assert(m[8].key.len() != m[12].key.len());
    assert(m[9].key.len() != m[12].key.len());
    assert(m[10].key.len() != m[12].key.len());
    assert(m[11].key[0] != m[12].key[0]);
}

proof fn lemma_key_first_13()
    ensures
        key_first_at(default_schema_model(), 13),
{
    let m = default_schema_model();
    reveal_strlit("maxconnections");
    reveal_strlit("datadir");
    reveal_strlit("txindex");
    reveal_strlit("prune");
    reveal_strlit("blocksonly");
    reveal_strlit("dbcache");
    reveal_strlit("maxmempool");
    reveal_strlit("pid");
    reveal_strlit("testnet");
    reveal_strlit("regtest");
    reveal_strlit("signet");
    reveal_strlit("listen");
    reveal_strlit("bind");
    reveal_strlit("port");
    assert(m[0].key.len() != m[13].key.len());
    assert(m[1].key.len() != m[13].key.len());
    assert(m[2].key.len() != m[13].key.len());
    assert(m[3].key.len() != m[13].key.len());
    assert(m[4].key.len() != m[13].key.len());
    assert(m[5].key.len() != m[13].key.len());
    assert(m[6].key.len() != m[13].key.len());
    assert(m[7].key.len() != m[13].key.len());
    assert(m[8].key.len() != m[13].key.len());
    assert(m[9].key.len() != m[13].key.len());
    assert(m[10].key.len() != m[13].key.len());
    assert(m[11].key.len() != m[13].key.len());
    assert(m[12].key.len() != m[13].key.len());
}

proof fn lemma_key_first_14()
    ensures
        key_first_at(default_schema_model(), 14),
{
    let m = default_schema_model();
    reveal_strlit("proxy");
    reveal_strlit("datadir");
    reveal_strlit("txindex");
    reveal_strlit("prune");
    reveal_strlit("blocksonly");
    reveal_strlit("dbcache");
    reveal_strlit("maxmempool");
    reveal_strlit("pid");
    reveal_strlit("testnet");
    reveal_strlit("regtest");
    reveal_strlit("signet");
    reveal_strlit("listen");
    reveal_strlit("bind");
    reveal_strlit("port");
    reveal_strlit("maxconnections");
    assert(m[0].key.len() != m[14].key.len());
    assert(m[1].key.len() != m[14].key.len());
    assert(m[2].key[2] != m[14].key[2]);
    assert(m[3].key.len() != m[14].key.len());
    assert(m[4].key.len() != m[14].key.len());
    assert(m[5].key.len() != m[14].key.len());
    assert(m[6].key.len() != m[14].key.len());
    assert(m[7].key.len() != m[14].key.len());
    assert(m[8].key.len() != m[14].key.len());
    assert(m[9].key.len() != m[14].key.len());
    assert(m[10].key.len() != m[14].key.len());
    assert(m[11].key.len() != m[14].key.len());
    assert(m[12].key.len() != m[14].key.len());
    assert(m[13].key.len() != m[14].key.len());
}

proof fn lemma_key_first_15()
    ensures
        key_first_at(default_schema_model(), 15),
{
    let m = default_schema_model();
    reveal_strlit("onion");
    reveal_strlit("datadir");
    reveal_strlit("txindex");
    reveal_strlit("prune");
    reveal_strlit("blocksonly");
    reveal_strlit("dbcache");
    reveal_strlit("maxmempool");
    reveal_strlit("pid");
    reveal_strlit("testnet");
    reveal_strlit("regtest");
    reveal_strlit("signet");
    reveal_strlit("listen");
    reveal_strlit("bind");
    reveal_strlit("port");
    reveal_strlit("maxconnections");
    reveal_strlit("proxy");
    assert(m[0].key.len() != m[15].key.len());
    assert(m[1].key.len() != m[15].key.len());
    assert(m[2].key[0] != m[15].key[0]);
    assert(m[3].key.len() != m[15].key.len());
    assert(m[4].key.len() != m[15].key.len());
    assert(m[5].key.len() != m[15].key.len());
    assert(m[6].key.len() != m[15].key.len());
    assert(m[7].key.len() != m[15].key.len());
    assert(m[8].key.len() != m[15].key.len());
    assert(m[9].key.len() != m[15].key.len());
    assert(m[10].key.len() != m[15].key.len());
    assert(m[11].key.len() != m[15].key.len());
    assert(m[12].key.len() != m[15].key.len());
    assert(m[13].key.len() != m[15].key.len());
    assert(m[14].key[0] != m[15].key[0]);
}

proof fn lemma_key_first_16()
    ensures
        key_first_at(default_schema_model(), 16),
{
    let m = default_schema_model();
    reveal_strlit("upnp");
    reveal_strlit("datadir");
    reveal_strlit("txindex");
    reveal_strlit("prune");
    reveal_strlit("blocksonly");
    reveal_strlit("dbcache");
    reveal_strlit("maxmempool");
    reveal_strlit("pid");
    reveal_strlit("testnet");
    reveal_strlit("regtest");
    reveal_strlit("signet");
    reveal_strlit("listen");
    reveal_strlit("bind");
    reveal_strlit("port");
    reveal_strlit("maxconnections");
    reveal_strlit("proxy");
    reveal_strlit("onion");
    assert(m[0].key.len() != m[16].key.len());
    assert(m[1].key.len() != m[16].key.len());
    assert(m[2].key.len() != m[16].key.len());
    assert(m[3].key.len() != m[16].key.len());
    assert(m[4].key.len() != m[16].key.len());
    assert(m[5].key.len() != m[16].key.len());
    assert(m[6].key.len() != m[16].key.len());
    assert(m[7].key.len() != m[16].key.len());
    assert(m[8].key.len() != m[16].key.len());
    assert(m[9].key.len() != m[16].key.len());
    assert(m[10].key.len() != m[16].key.len());
    assert(m[11].key[0] != m[16].key[0]);
    assert(m[12].key[0] != m[16].key[0]);
    assert(m[13].key.len() != m[16].key.len());
    assert(m[14].key.len() != m[16].key.len());
    assert(m[15].key.len() != m[16].key.len());
}

proof fn lemma_key_first_17()
    ensures
        key_first_at(default_schema_model(), 17),
{
    let m = default_schema_model();
    reveal_strlit("server");
    reveal_strlit("datadir");
    reveal_strlit("txindex");
    reveal_strlit("prune");
    reveal_strlit("blocksonly");
    reveal_strlit("dbcache");
    reveal_strlit("maxmempool");
    reveal_strlit("pid");
    reveal_strlit("testnet");
    reveal_strlit("regtest");
    reveal_strlit("signet");
    reveal_strlit("listen");
    reveal_strlit("bind");
    reveal_strlit("port");
    reveal_strlit("maxconnections");
    reveal_strlit("proxy");
    reveal_strlit("onion");
    reveal_strlit("upnp");
    assert(m[0].key.len() != m[17].key.len());
    assert(m[1].key.len() != m[17].key.len());
    assert(m[2].key.len() != m[17].key.len());
    assert(m[3].key.len() != m[17].key.len());
    assert(m[4].key.len() != m[17].key.len());
    assert(m[5].key.len() != m[17].key.len());
    assert(m[6].key.len() != m[17].key.len());
    assert(m[7].key.len() != m[17].key.len());
    assert(m[8].key.len() != m[17].key.len());
    assert(m[9].key[1] != m[17].key[1]);
    assert(m[10].key[0] != m[17].key[0]);
    assert(m[11].key.len() != m[17].key.len());
    assert(m[12].key.len() != m[17].key.len());
    assert(m[13].key.len() != m[17].key.len());
    assert(m[14].key.len() != m[17].key.len());
    assert(m[15].key.len() != m[17].key.len());
    assert(m[16].key.len() != m[17].key.len());
}

proof fn lemma_key_first_18()
    ensures
        key_first_at(default_schema_model(), 18),
{
    let m = default_schema_model();
    reveal_strlit("rpcuser");
    reveal_strlit("datadir");
    reveal_strlit("txindex");
    reveal_strlit("prune");
    reveal_strlit("blocksonly");
    reveal_strlit("dbcache");
    reveal_strlit("maxmempool");
    reveal_strlit("pid");
    reveal_strlit("testnet");
    reveal_strlit("regtest");
    reveal_strlit("signet");
    reveal_strlit("listen");
    reveal_strlit("bind");
    reveal_strlit("port");
    reveal_strlit("maxconnections");
    reveal_strlit("proxy");
    reveal_strlit("onion");
    reveal_strlit("upnp");
    reveal_strlit("server");
    assert(m[0].key[0] != m[18].key[0]);
    assert(m[1].key[0] != m[18].key[0]);
    assert(m[2].key.len() != m[18].key.len());
    assert(m[3].key.len() != m[18].key.len());
    assert(m[4].key[0] != m[18].key[0]);
    assert(m[5].key.len() != m[18].key.len());
    assert(m[6].key.len() != m[18].key.len());
    assert(m[7].key[0] != m[18].key[0]);
    assert(m[8].key[1] != m[18].key[1]);
    assert(m[9].key.len() != m[18].key.len());
    assert(m[10].key.len() != m[18].key.len());
    assert(m[11].key.len() != m[18].key.len());
    assert(m[12].key.len() != m[18].key.len());
    assert(m[13].key.len() != m[18].key.len());
    assert(m[14].key.len() != m[18].key.len());
    assert(m[15].key.len() != m[18].key.len());
    assert(m[16].key.len() != m[18].key.len());
    assert(m[17].key.len() != m[18].key.len());
}

proof fn lemma_key_first_19()
    ensures
        key_first_at(default_schema_model(), 19),
{
    let m = default_schema_model();
    reveal_strlit("rpcpassword");
    reveal_strlit("datadir");
    reveal_strlit("txindex");
    reveal_strlit("prune");
    reveal_strlit("blocksonly");
    reveal_strlit("dbcache");
    reveal_strlit("maxmempool");
    reveal_strlit("pid");
    reveal_strlit("testnet");
    reveal_strlit("regtest");
    reveal_strlit("signet");
    reveal_strlit("listen");
    reveal_strlit("bind");
    reveal_strlit("port");
    reveal_strlit("maxconnections");
    reveal_strlit("proxy");
    reveal_strlit("onion");
    reveal_strlit("upnp");
    reveal_strlit("server");
    reveal_strlit("rpcuser");
    assert(m[0].key.len() != m[19].key.len());
    assert(m[1].key.len() != m[19].key.len());
    assert(m[2].key.len() != m[19].key.len());
    assert(m[3].key.len() != m[19].key.len());
    assert(m[4].key.len() != m[19].key.len());
    assert(m[5].key.len() != m[19].key.len());
    assert(m[6].key.len() != m[19].key.len());
    assert(m[7].key.len() != m[19].key.len());
    assert(m[8].key.len() != m[19].key.len());
    assert(m[9].key.len() != m[19].key.len());
    assert(m[10].key.len() != m[19].key.len());
    assert(m[11].key.len() != m[19].key.len());
    assert(m[12].key.len() != m[19].key.len());
    assert(m[13].key.len() != m[19].key.len());
    assert(m[14].key.len() != m[19].key.len());
    assert(m[15].key.len() != m[19].key.len());
    assert(m[16].key.len() != m[19].key.len());
    assert(m[17].key.len() != m[19].key.len());
    assert(m[18].key.len() != m[19].key.len());
}

proof fn lemma_key_first_20()
    ensures
        key_first_at(default_schema_model(), 20),
{
    let m = default_schema_model();
    reveal_strlit("rpcauth");
    reveal_strlit("datadir");
    reveal_strlit("txindex");
    reveal_strlit("prune");
    reveal_strlit("blocksonly");
    reveal_strlit("dbcache");
    reveal_strlit("maxmempool");
    reveal_strlit("pid");
    reveal_strlit("testnet");
    reveal_strlit("regtest");
    reveal_strlit("signet");
    reveal_strlit("listen");
    reveal_strlit("bind");
    reveal_strlit("port");
    reveal_strlit("maxconnections");
    reveal_strlit("proxy");
    reveal_strlit("onion");
    reveal_strlit("upnp");
    reveal_strlit("server");
    reveal_strlit("rpcuser");
    reveal_strlit("rpcpassword");
    assert(m[0].key[0] != m[20].key[0]);
    assert(m[1].key[0] != m[20].key[0]);
    assert(m[2].key.len() != m[20].key.len());
    assert(m[3].key.len() != m[20].key.len());
    assert(m[4].key[0] != m[20].key[0]);
    assert(m[5].key.len() != m[20].key.len());
    assert(m[6].key.len() != m[20].key.len());
    assert(m[7].key[0] != m[20].key[0]);
    assert(m[8].key[1] != m[20].key[1]);
    assert(m[9].key.len() != m[20].key.len());
    assert(m[10].key.len() != m[20].key.len());
    assert(m[11].key.len() != m[20].key.len());
    assert(m[12].key.len() != m[20].key.len());
    assert(m[13].key.len() != m[20].key.len());
    assert(m[14].key.len() != m[20].key.len());
    assert(m[15].key.len() != m[20].key.len());
    assert(m[16].key.len() != m[20].key.len());
    assert(m[17].key.len() != m[20].key.len());
    assert(m[18].key[3] != m[20].key[3]);
    assert(m[19].key.len() != m[20].key.len());
}

proof fn lemma_key_first_21()
    ensures
        key_first_at(default_schema_model(), 21),
{
    let m = default_schema_model();
    reveal_strlit("rpcport");
    reveal_strlit("datadir");
    reveal_strlit("txindex");
    reveal_strlit("prune");
    reveal_strlit("blocksonly");
    reveal_strlit("dbcache");
    reveal_strlit("maxmempool");
    reveal_strlit("pid");
    reveal_strlit("testnet");
    reveal_strlit("regtest");
    reveal_strlit("signet");
    reveal_strlit("listen");
    reveal_strlit("bind");
    reveal_strlit("port");
    reveal_strlit("maxconnections");
    reveal_strlit("proxy");
    reveal_strlit("onion");
    reveal_strlit("upnp");
    reveal_strlit("server");
    reveal_strlit("rpcuser");
    reveal_strlit("rpcpassword");
    reveal_strlit("rpcauth");
    assert(m[0].key[0] != m[21].key[0]);
    assert(m[1].key[0] != m[21].key[0]);
    assert(m[2].key.len() != m[21].key.len());
    assert(m[3].key.len() != m[21].key.len());
    assert(m[4].key[0] != m[21].key[0]);
    assert(m[5].key.len() != m[21].key.len());
    assert(m[6].key.len() != m[21].key.len());
    assert(m[7].key[0] != m[21].key[0]);
    assert(m[8].key[1] != m[21].key[1]);
    assert(m[9].key.len() != m[21].key.len());
    assert(m[10].key.len() != m[21].key.len());
    assert(m[11].key.len() != m[21].key.len());
    assert(m[12].key.len() != m[21].key.len());
    assert(m[13].key.len() != m[21].key.len());
    assert(m[14].key.len() != m[21].key.len());
    assert(m[15].key.len() != m[21].key.len());
    assert(m[16].key.len() != m[21].key.len());
    assert(m[17].key.len() != m[21].key.len());
    assert(m[18].key[3] != m[21].key[3]);
    assert(m[19].key.len() != m[21].key.len());
    assert(m[20].key[3] != m[21].key[3]);
}

proof fn lemma_key_first_22()
    ensures
        key_first_at(default_schema_model(), 22),
{
    let m = default_schema_model();
    reveal_strlit("rpcbind");
    reveal_strlit("datadir");
    reveal_strlit("txindex");
    reveal_strlit("prune");
    reveal_strlit("blocksonly");
    reveal_strlit("dbcache");
    reveal_strlit("maxmempool");
    reveal_strlit("pid");
    reveal_strlit("testnet");
    reveal_strlit("regtest");
    reveal_strlit("signet");
    reveal_strlit("listen");
    reveal_strlit("bind");
    reveal_strlit("port");
    reveal_strlit("maxconnections");
    reveal_strlit("proxy");
    reveal_strlit("onion");
    reveal_strlit("upnp");
    reveal_strlit("server");
    reveal_strlit("rpcuser");
    reveal_strlit("rpcpassword");
    reveal_strlit("rpcauth");
    reveal_strlit("rpcport");
    assert(m[0].key[0] != m[22].key[0]);
    assert(m[1].key[0] != m[22].key[0]);
    assert(m[2].key.len() != m[22].key.len());
    assert(m[3].key.len() != m[22].key.len());
    assert(m[4].key[0] != m[22].key[0]);
    assert(m[5].key.len() != m[22].key.len());
    assert(m[6].key.len() != m[22].key.len());
    assert(m[7].key[0] != m[22].key[0]);
    assert(m[8].key[1] != m[22].key[1]);
    assert(m[9].key.len() != m[22].key.len());
    assert(m[10].key.len() != m[22].key.len());
    assert(m[11].key.len() != m[22].key.len());
    assert(m[12].key.len() != m[22].key.len());
    assert(m[13].key.len() != m[22].key.len());
    assert(m[14].key.len() != m[22].key.len());
    assert(m[15].key.len() != m[22].key.len());
    assert(m[16].key.len() != m[22].key.len());
    assert(m[17].key.len() != m[22].key.len());
    assert(m[18].key[3] != m[22].key[3]);
    assert(m[19].key.len() != m[22].key.len());
    assert(m[20].key[3] != m[22].key[3]);
    assert(m[21].key[3] != m[22].key[3]);
}

proof fn lemma_key_first_23()
    ensures
        key_first_at(default_schema_model(), 23),
{
    let m = default_schema_model();
    reveal_strlit("rpcallowip");
    reveal_strlit("datadir");
    reveal_strlit("txindex");
    reveal_strlit("prune");
    reveal_strlit("blocksonly");
    reveal_strlit("dbcache");
    reveal_strlit("maxmempool");
    reveal_strlit("pid");
    reveal_strlit("testnet");
    reveal_strlit("regtest");
    reveal_strlit("signet");
    reveal_strlit("listen");
    reveal_strlit("bind");
    reveal_strlit("port");
    reveal_strlit("maxconnections");
    reveal_strlit("proxy");
    reveal_strlit("onion");
    reveal_strlit("upnp");
    reveal_strlit("server");
    reveal_strlit("rpcuser");
    reveal_strlit("rpcpassword");
    reveal_strlit("rpcauth");
    reveal_strlit("rpcport");
    reveal_strlit("rpcbind");
    assert(m[0].key.len() != m[23].key.len());
    assert(m[1].key.len() != m[23].key.len());
    assert(m[2].key.len() != m[23].key.len());
    assert(m[3].key[0] != m[23].key[0]);
    assert(m[4].key.len() != m[23].key.len());
    assert(m[5].key[0] != m[23].key[0]);
    assert(m[6].key.len() != m[23].key.len());
    assert(m[7].key.len() != m[23].key.len());
    assert(m[8].key.len() != m[23].key.len());
    assert(m[9].key.len() != m[23].key.len());
    assert(m[10].key.len() != m[23].key.len());
    assert(m[11].key.len() != m[23].key.len());
    assert(m[12].key.len() != m[23].key.len());
    assert(m[13].key.len() != m[23].key.len());
    assert(m[14].key.len() != m[23].key.len());
    assert(m[15].key.len() != m[23].key.len());
    assert(m[16].key.len() != m[23].key.len());
    assert(m[17].key.len() != m[23].key.len());
    assert(m[18].key.len() != m[23].key.len());
    assert(m[19].key.len() != m[23].key.len());
    assert(m[20].key.len() != m[23].key.len());
    assert(m[21].key.len() != m[23].key.len());
    assert(m[22].key.len() != m[23].key.len());
}

proof fn lemma_key_first_24()
    ensures
        key_first_at(default_schema_model(), 24),
{
    let m = default_schema_model();
    reveal_strlit("rpcthreads");
    reveal_strlit("datadir");
    reveal_strlit("txindex");
    reveal_strlit("prune");
    reveal_strlit("blocksonly");
    reveal_strlit("dbcache");
    reveal_strlit("maxmempool");
    reveal_strlit("pid");
    reveal_strlit("testnet");
    reveal_strlit("regtest");
    reveal_strlit("signet");
    reveal_strlit("listen");
    reveal_strlit("bind");
    reveal_strlit("port");
    reveal_strlit("maxconnections");
    reveal_strlit("proxy");
    reveal_strlit("onion");
    reveal_strlit("upnp");
    reveal_strlit("server");
    reveal_strlit("rpcuser");
    reveal_strlit("rpcpassword");
    reveal_strlit("rpcauth");
    reveal_strlit("rpcport");
    reveal_strlit("rpcbind");
    reveal_strlit("rpcallowip");
    assert(m[0].key.len() != m[24].key.len());
    assert(m[1].key.len() != m[24].key.len());
    assert(m[2].key.len() != m[24].key.len());
    assert(m[3].key[0] != m[24].key[0]);
    assert(m[4].key.len() != m[24].key.len());
    assert(m[5].key[0] != m[24].key[0]);
    assert(m[6].key.len() != m[24].key.len());
    assert(m[7].key.len() != m[24].key.len());
    assert(m[8].key.len() != m[24].key.len());
    assert(m[9].key.len() != m[24].key.len());
    assert(m[10].key.len() != m[24].key.len());
    assert(m[11].key.len() != m[24].key.len());
    assert(m[12].key.len() != m[24].key.len());
    assert(m[13].key.len() != m[24].key.len());
    assert(m[14].key.len() != m[24].key.len());
    assert(m[15].key.len() != m[24].key.len());
    assert(m[16].key.len() != m[24].key.len());
    assert(m[17].key.len() != m[24].key.len());
    assert(m[18].key.len() != m[24].key.len());
    assert(m[19].key.len() != m[24].key.len());
    assert(m[20].key.len() != m[24].key.len());
    assert(m[21].key.len() != m[24].key.len());
    assert(m[22].key.len() != m[24].key.len());
    assert(m[23].key[3] != m[24].key[3]);
}

proof fn lemma_key_first_25()
    ensures
        key_first_at(default_schema_model(), 25),
{
    let m = default_schema_model();
    reveal_strlit("disablewallet");
    reveal_strlit("datadir");
    reveal_strlit("txindex");
    reveal_strlit("prune");
    reveal_strlit("blocksonly");
    reveal_strlit("dbcache");
    reveal_strlit("maxmempool");
    reveal_strlit("pid");
    reveal_strlit("testnet");
    reveal_strlit("regtest");
    reveal_strlit("signet");
    reveal_strlit("listen");
    reveal_strlit("bind");
    reveal_strlit("port");
    reveal_strlit("maxconnections");
    reveal_strlit("proxy");
    reveal_strlit("onion");
    reveal_strlit("upnp");
    reveal_strlit("server");
    reveal_strlit("rpcuser");
    reveal_strlit("rpcpassword");
    reveal_strlit("rpcauth");
    reveal_strlit("rpcport");
    reveal_strlit("rpcbind");
    reveal_strlit("rpcallowip");
    reveal_strlit("rpcthreads");
    assert(m[0].key.len() != m[25].key.len());
    assert(m[1].key.len() != m[25].key.len());
    assert(m[2].key.len() != m[25].key.len());
    assert(m[3].key.len() != m[25].key.len());
    assert(m[4].key.len() != m[25].key.len());
    assert(m[5].key.len() != m[25].key.len());
    assert(m[6].key.len() != m[25].key.len());
    assert(m[7].key.len() != m[25].key.len());
    assert(m[8].key.len() != m[25].key.len());
    assert(m[9].key.len() != m[25].key.len());
    assert(m[10].key.len() != m[25].key.len());
    assert(m[11].key.len() != m[25].key.len());
    assert(m[12].key.len() != m[25].key.len());
    assert(m[13].key.len() != m[25].key.len());
    assert(m[14].key.len() != m[25].key.len());
    assert(m[15].key.len() != m[25].key.len());
    assert(m[16].key.len() != m[25].key.len());
    assert(m[17].key.len() != m[25].key.len());
    assert(m[18].key.len() != m[25].key.len());
    assert(m[19].key.len() != m[25].key.len());
    assert(m[20].key.len() != m[25].key.len());
    assert(m[21].key.len() != m[25].key.len());
    assert(m[22].key.len() != m[25].key.len());
    assert(m[23].key.len() != m[25].key.len());
    assert(m[24].key.len() != m[25].key.len());
}

proof fn lemma_key_first_26()
    ensures
        key_first_at(default_schema_model(), 26),
{
    let m = default_schema_model();
    reveal_strlit("fallbackfee");
    reveal_strlit("datadir");
    reveal_strlit("txindex");
    reveal_strlit("prune");
    reveal_strlit("blocksonly");
    reveal_strlit("dbcache");
    reveal_strlit("maxmempool");
    reveal_strlit("pid");
    reveal_strlit("testnet");
    reveal_strlit("regtest");
    reveal_strlit("signet");
    reveal_strlit("listen");
    reveal_strlit("bind");
    reveal_strlit("port");
    reveal_strlit("maxconnections");
    reveal_strlit("proxy");
    reveal_strlit("onion");
    reveal_strlit("upnp");
    reveal_strlit("server");
    reveal_strlit("rpcuser");
    reveal_strlit("rpcpassword");
    reveal_strlit("rpcauth");
    reveal_strlit("rpcport");
    reveal_strlit("rpcbind");
    reveal_strlit("rpcallowip");
    reveal_strlit("rpcthreads");
    reveal_strlit("disablewallet");
    assert(m[0].key.len() != m[26].key.len());
    assert(m[1].key.len() != m[26].key.len());
    assert(m[2].key.len() != m[26].key.len());
    assert(m[3].key.len() != m[26].key.len());
    assert(m[4].key.len() != m[26].key.len());
    assert(m[5].key.len() != m[26].key.len());
    assert(m[6].key.len() != m[26].key.len());
    assert(m[7].key.len() != m[26].key.len());
    assert(m[8].key.len() != m[26].key.len());
    assert(m[9].key.len() != m[26].key.len());
    assert(m[10].key.len() != m[26].key.len());
    assert(m[11].key.len() != m[26].key.len());
    assert(m[12].key.len() != m[26].key.len());
    assert(m[13].key.len() != m[26].key.len());
    assert(m[14].key.len() != m[26].key.len());
    assert(m[15].key.len() != m[26].key.len());
    assert(m[16].key.len() != m[26].key.len());
    assert(m[17].key.len() != m[26].key.len());
    assert(m[18].key.len() != m[26].key.len());
    assert(m[19].key[0] != m[26].key[0]);
    assert(m[20].key.len() != m[26].key.len());
    assert(m[21].key.len() != m[26].key.len());
    assert(m[22].key.len() != m[26].key.len());
    assert(m[23].key.len() != m[26].key.len());
    assert(m[24].key.len() != m[26].key.len());
    assert(m[25].key.len() != m[26].key.len());
}

proof fn lemma_key_first_27()
    ensures
        key_first_at(default_schema_model(), 27),
{
    let m = default_schema_model();
    reveal_strlit("discardfee");
    reveal_strlit("datadir");
    reveal_strlit("txindex");
    reveal_strlit("prune");
    reveal_strlit("blocksonly");
    reveal_strlit("dbcache");
    reveal_strlit("maxmempool");
    reveal_strlit("pid");
    reveal_strlit("testnet");
    reveal_strlit("regtest");
    reveal_strlit("signet");
    reveal_strlit("listen");
    reveal_strlit("bind");
    reveal_strlit("port");
    reveal_strlit("maxconnections");
    reveal_strlit("proxy");
    reveal_strlit("onion");
    reveal_strlit("upnp");
    reveal_strlit("server");
    reveal_strlit("rpcuser");
    reveal_strlit("rpcpassword");
    reveal_strlit("rpcauth");
    reveal_strlit("rpcport");
    reveal_strlit("rpcbind");
    reveal_strlit("rpcallowip");
    reveal_strlit("rpcthreads");
    reveal_strlit("disablewallet");
    reveal_strlit("fallbackfee");
    assert(m[0].key.len() != m[27].key.len());
    assert(m[1].key.len() != m[27].key.len());
    assert(m[2].key.len() != m[27].key.len());
    assert(m[3].key[0] != m[27].key[0]);
    assert(m[4].key.len() != m[27].key.len());
    assert(m[5].key[0] != m[27].key[0]);
    assert(m[6].key.len() != m[27].key.len());
    assert(m[7].key.len() != m[27].key.len());
    assert(m[8].key.len() != m[27].key.len());
    assert(m[9].key.len() != m[27].key.len());
    assert(m[10].key.len() != m[27].key.len());
    assert(m[11].key.len() != m[27].key.len());
    assert(m[12].key.len() != m[27].key.len());
    assert(m[13].key.len() != m[27].key.len());
    assert(m[14].key.len() != m[27].key.len());
    assert(m[15].key.len() != m[27].key.len());
    assert(m[16].key.len() != m[27].key.len());
    assert(m[17].key.len() != m[27].key.len());
    assert(m[18].key.len() != m[27].key.len());
    assert(m[19].key.len() != m[27].key.len());
    assert(m[20].key.len() != m[27].key.len());
    assert(m[21].key.len() != m[27].key.len());
    assert(m[22].key.len() != m[27].key.len());
    assert(m[23].key[0] != m[27].key[0]);
    assert(m[24].key[0] != m[27].key[0]);
    assert(m[25].key.len() != m[27].key.len());
    assert(m[26].key.len() != m[27].key.len());
}

proof fn lemma_key_first_28()
    ensures
        key_first_at(default_schema_model(), 28),
{
    let m = default_schema_model();
    reveal_strlit("mintxfee");
    reveal_strlit("datadir");
    reveal_strlit("txindex");
    reveal_strlit("prune");
    reveal_strlit("blocksonly");
    reveal_strlit("dbcache");
    reveal_strlit("maxmempool");
    reveal_strlit("pid");
    reveal_strlit("testnet");
    reveal_strlit("regtest");
    reveal_strlit("signet");
    reveal_strlit("listen");
    reveal_strlit("bind");
    reveal_strlit("port");
    reveal_strlit("maxconnections");
    reveal_strlit("proxy");
    reveal_strlit("onion");
    reveal_strlit("upnp");
    reveal_strlit("server");
    reveal_strlit("rpcuser");
    reveal_strlit("rpcpassword");
    reveal_strlit("rpcauth");
    reveal_strlit("rpcport");
    reveal_strlit("rpcbind");
    reveal_strlit("rpcallowip");
    reveal_strlit("rpcthreads");
    reveal_strlit("disablewallet");
    reveal_strlit("fallbackfee");
    reveal_strlit("discardfee");
    assert(m[0].key.len() != m[28].key.len());
    assert(m[1].key.len() != m[28].key.len());
    assert(m[2].key.len() != m[28].key.len());
    assert(m[3].key.len() != m[28].key.len());
    assert(m[4].key.len() != m[28].key.len());
    assert(m[5].key.len() != m[28].key.len());
    assert(m[6].key.len() != m[28].key.len());
    assert(m[7].key.len() != m[28].key.len());
    assert(m[8].key.len() != m[28].key.len());
    assert(m[9].key.len() != m[28].key.len());
    assert(m[10].key.len() != m[28].key.len());
    assert(m[11].key.len() != m[28].key.len());
    assert(m[12].key.len() != m[28].key.len());
    assert(m[13].key.len() != m[28].key.len());
    assert(m[14].key.len() != m[28].key.len());
    assert(m[15].key.len() != m[28].key.len());
    assert(m[16].key.len() != m[28].key.len());
    assert(m[17].key.len() != m[28].key.len());
    assert(m[18].key.len() != m[28].key.len());
    assert(m[19].key.len() != m[28].key.len());
    assert(m[20].key.len() != m[28].key.len());
    assert(m[21].key.len() != m[28].key.len());
    assert(m[22].key.len() != m[28].key.len());
    assert(m[23].key.len() != m[28].key.len());
    assert(m[24].key.len() != m[28].key.len());
    assert(m[25].key.len() != m[28].key.len());
    assert(m[26].key.len() != m[28].key.len());
    assert(m[27].key.len() != m[28].key.len());
}

proof fn lemma_key_first_29()
    ensures
        key_first_at(default_schema_model(), 29),
{
    let m = default_schema_model();
    reveal_strlit("paytxfee");
    reveal_strlit("datadir");
    reveal_strlit("txindex");
    reveal_strlit("prune");
    reveal_strlit("blocksonly");
    reveal_strlit("dbcache");
    reveal_strlit("maxmempool");
    reveal_strlit("pid");
    reveal_strlit("testnet");
    reveal_strlit("regtest");
    reveal_strlit("signet");
    reveal_strlit("listen");
    reveal_strlit("bind");
    reveal_strlit("port");
    reveal_strlit("maxconnections");
    reveal_strlit("proxy");
    reveal_strlit("onion");
    reveal_strlit("upnp");
    reveal_strlit("server");
    reveal_strlit("rpcuser");
    reveal_strlit("rpcpassword");
    reveal_strlit("rpcauth");
    reveal_strlit("rpcport");
    reveal_strlit("rpcbind");
    reveal_strlit("rpcallowip");
    reveal_strlit("rpcthreads");
    reveal_strlit("disablewallet");
    reveal_strlit("fallbackfee");
    reveal_strlit("discardfee");
    reveal_strlit("mintxfee");
    assert(m[0].key.len() != m[29].key.len());
    assert(m[1].key.len() != m[29].key.len());
    assert(m[2].key.len() != m[29].key.len());
    assert(m[3].key.len() != m[29].key.len());
    assert(m[4].key.len() != m[29].key.len());
    assert(m[5].key.len() != m[29].key.len());
    assert(m[6].key.len() != m[29].key.len());
    assert(m[7].key.len() != m[29].key.len());
    assert(m[8].key.len() != m[29].key.len());
    assert(m[9].key.len() != m[29].key.len());
    assert(m[10].key.len() != m[29].key.len());
    assert(m[11].key.len() != m[29].key.len());
    assert(m[12].key.len() != m[29].key.len());
    assert(m[13].key.len() != m[29].key.len());
    assert(m[14].key.len() != m[29].key.len());
    assert(m[15].key.len() != m[29].key.len());
    assert(m[16].key.len() != m[29].key.len());
    assert(m[17].key.len() != m[29].key.len());
    assert(m[18].key.len() != m[29].key.len());
    assert(m[19].key.len() != m[29].key.len());
    assert(m[20].key.len() != m[29].key.len());
    assert(m[21].key.len() != m[29].key.len());
    assert(m[22].key.len() != m[29].key.len());
    assert(m[23].key.len() != m[29].key.len());
    assert(m[24].key.len() != m[29].key.len());
    assert(m[25].key.len() != m[29].key.len());
    assert(m[26].key.len() != m[29].key.len());
    assert(m[27].key.len() != m[29].key.len());
    assert(m[28].key[0] != m[29].key[0]);
}

proof fn lemma_key_first_30()
    ensures
        key_first_at(default_schema_model(), 30),
{
    let m = default_schema_model();
    reveal_strlit("debug");
    reveal_strlit("datadir");
    reveal_strlit("txindex");
    reveal_strlit("prune");
    reveal_strlit("blocksonly");
    reveal_strlit("dbcache");
    reveal_strlit("maxmempool");
    reveal_strlit("pid");
    reveal_strlit("testnet");
    reveal_strlit("regtest");
    reveal_strlit("signet");
    reveal_strlit("listen");
    reveal_strlit("bind");
    reveal_strlit("port");
    reveal_strlit("maxconnections");
    reveal_strlit("proxy");
    reveal_strlit("onion");
    reveal_strlit("upnp");
    reveal_strlit("server");
    reveal_strlit("rpcuser");
    reveal_strlit("rpcpassword");
    reveal_strlit("rpcauth");
    reveal_strlit("rpcport");
    reveal_strlit("rpcbind");
    reveal_strlit("rpcallowip");
    reveal_strlit("rpcthreads");
    reveal_strlit("disablewallet");
    reveal_strlit("fallbackfee");
    reveal_strlit("discardfee");
    reveal_strlit("mintxfee");
    reveal_strlit("paytxfee");
    assert(m[0].key.len() != m[30].key.len());
    assert(m[1].key.len() != m[30].key.len());
    assert(m[2].key[0] != m[30].key[0]);
    assert(m[3].key.len() != m[30].key.len());
    assert(m[4].key.len() != m[30].key.len());
    assert(m[5].key.len() != m[30].key.len());
    assert(m[6].key.len() != m[30].key.len());
    assert(m[7].key.len() != m[30].key.len());
    assert(m[8].key.len() != m[30].key.len());
    assert(m[9].key.len() != m[30].key.len());
    assert(m[10].key.len() != m[30].key.len());
    assert(m[11].key.len() != m[30].key.len());
    assert(m[12].key.len() != m[30].key.len());
    assert(m[13].key.len() != m[30].key.len());
    assert(m[14].key[0] != m[30].key[0]);
    assert(m[15].key[0] != m[30].key[0]);
    assert(m[16].key.len() != m[30].key.len());
    assert(m[17].key.len() != m[30].key.len());
    assert(m[18].key.len() != m[30].key.len());
    assert(m[19].key.len() != m[30].key.len());
    assert(m[20].key.len() != m[30].key.len());
    assert(m[21].key.len() != m[30].key.len());
    assert(m[22].key.len() != m[30].key.len());
    assert(m[23].key.len() != m[30].key.len());
    assert(m[24].key.len() != m[30].key.len());
    assert(m[25].key.len() != m[30].key.len());
    assert(m[26].key.len() != m[30].key.len());
    assert(m[27].key.len() != m[30].key.len());
    assert(m[28].key.len() != m[30].key.len());
    assert(m[29].key.len() != m[30].key.len());
}

proof fn lemma_key_first_31()
    ensures
        key_first_at(default_schema_model(), 31),
{
    let m = default_schema_model();
    reveal_strlit("logips");
    reveal_strlit("datadir");
    reveal_strlit("txindex");
    reveal_strlit("prune");
    reveal_strlit("blocksonly");
    reveal_strlit("dbcache");
    reveal_strlit("maxmempool");
    reveal_strlit("pid");
    reveal_strlit("testnet");
    reveal_strlit("regtest");
    reveal_strlit("signet");
    reveal_strlit("listen");
    reveal_strlit("bind");
    reveal_strlit("port");
    reveal_strlit("maxconnections");
    reveal_strlit("proxy");
    reveal_strlit("onion");
    reveal_strlit("upnp");
    reveal_strlit("server");
    reveal_strlit("rpcuser");
    reveal_strlit("rpcpassword");
    reveal_strlit("rpcauth");
    reveal_strlit("rpcport");
    reveal_strlit("rpcbind");
    reveal_strlit("rpcallowip");
    reveal_strlit("rpcthreads");
    reveal_strlit("disablewallet");
    reveal_strlit("fallbackfee");
    reveal_strlit("discardfee");
    reveal_strlit("mintxfee");
    reveal_strlit("paytxfee");
    reveal_strlit("debug");
    assert(m[0].key.len() != m[31].key.len());
    assert(m[1].key.len() != m[31].key.len());
    assert(m[2].key.len() != m[31].key.len());
    assert(m[3].key.len() != m[31].key.len());
    assert(m[4].key.len() != m[31].key.len());
    assert(m[5].key.len() != m[31].key.len());
    assert(m[6].key.len() != m[31].key.len());
    assert(m[7].key.len() != m[31].key.len());
    assert(m[8].key.len() != m[31].key.len());
    assert(m[9].key[0] != m[31].key[0]);
    assert(m[10].key[1] != m[31].key[1]);
    assert(m[11].key.len() != m[31].key.len());
    assert(m[12].key.len() != m[31].key.len());
    assert(m[13].key.len() != m[31].key.len());
    assert(m[14].key.len() != m[31].key.len());
    assert(m[15].key.len() != m[31].key.len());
    assert(m[16].key.len() != m[31].key.len());
    assert(m[17].key[0] != m[31].key[0]);
    assert(m[18].key.len() != m[31].key.len());
    assert(m[19].key.len() != m[31].key.len());
    assert(m[20].key.len() != m[31].key.len());
    assert(m[21].key.len() != m[31].key.len());
    assert(m[22].key.len() != m[31].key.len());
    assert(m[23].key.len() != m[31].key.len());
    assert(m[24].key.len() != m[31].key.len());
    assert(m[25].key.len() != m[31].key.len());
    assert(m[26].key.len() != m[31].key.len());
    assert(m[27].key.len() != m[31].key.len());
    assert(m[28].key.len() != m[31].key.len());
    assert(m[29].key.len() != m[31].key.len());
    assert(m[30].key.len() != m[31].key.len());
}

proof fn lemma_key_first_32()
    ensures
        key_first_at(default_schema_model(), 32),
{
    let m = default_schema_model();
    reveal_strlit("shrinkdebugfile");
    reveal_strlit("datadir");
    reveal_strlit("txindex");
    reveal_strlit("prune");
    reveal_strlit("blocksonly");
    reveal_strlit("dbcache");
    reveal_strlit("maxmempool");
    reveal_strlit("pid");
    reveal_strlit("testnet");
    reveal_strlit("regtest");
    reveal_strlit("signet");
    reveal_strlit("listen");
    reveal_strlit("bind");
    reveal_strlit("port");
    reveal_strlit("maxconnections");
    reveal_strlit("proxy");
    reveal_strlit("onion");
    reveal_strlit("upnp");
    reveal_strlit("server");
    reveal_strlit("rpcuser");
    reveal_strlit("rpcpassword");
    reveal_strlit("rpcauth");
    reveal_strlit("rpcport");
    reveal_strlit("rpcbind");
    reveal_strlit("rpcallowip");
    reveal_strlit("rpcthreads");
    reveal_strlit("disablewallet");
    reveal_strlit("fallbackfee");
    reveal_strlit("discardfee");
    reveal_strlit("mintxfee");
    reveal_strlit("paytxfee");
    reveal_strlit("debug");
    reveal_strlit("logips");
    assert(m[0].key.len() != m[32].key.len());
    assert(m[1].key.len() != m[32].key.len());
    assert(m[2].key.len() != m[32].key.len());
    assert(m[3].key.len() != m[32].key.len());
    assert(m[4].key.len() != m[32].key.len());
    assert(m[5].key.len() != m[32].key.len());
    assert(m[6].key.len() != m[32].key.len());
    assert(m[7].key.len() != m[32].key.len());
    assert(m[8].key.len() != m[32].key.len());
    assert(m[9].key.len() != m[32].key.len());
    assert(m[10].key.len() != m[32].key.len());
    assert(m[11].key.len() != m[32].key.len());
    assert(m[12].key.len() != m[32].key.len());
    assert(m[13].key.len() != m[32].key.len());
    assert(m[14].key.len() != m[32].key.len());
    assert(m[15].key.len() != m[32].key.len());
    assert(m[16].key.len() != m[32].key.len());
    assert(m[17].key.len() != m[32].key.len());
    assert(m[18].key.len() != m[32].key.len());
    assert(m[19].key.len() != m[32].key.len());
    assert(m[20].key.len() != m[32].key.len());
    assert(m[21].key.len() != m[32].key.len());
    assert(m[22].key.len() != m[32].key.len());
    assert(m[23].key.len() != m[32].key.len());
    assert(m[24].key.len() != m[32].key.len());
    assert(m[25].key.len() != m[32].key.len());
    assert(m[26].key.len() != m[32].key.len());
    assert(m[27].key.len() != m[32].key.len());
    assert(m[28].key.len() != m[32].key.len());
    assert(m[29].key.len() != m[32].key.len());
    assert(m[30].key.len() != m[32].key.len());
    assert(m[31].key.len() != m[32].key.len());
}

proof fn lemma_key_first_33()
    ensures
        key_first_at(default_schema_model(), 33),
{
    let m = default_schema_model();
    reveal_strlit("blockmaxweight");
    reveal_strlit("datadir");
    reveal_strlit("txindex");
    reveal_strlit("prune");
    reveal_strlit("blocksonly");
    reveal_strlit("dbcache");
    reveal_strlit("maxmempool");
    reveal_strlit("pid");
    reveal_strlit("testnet");
    reveal_strlit("regtest");
    reveal_strlit("signet");
    reveal_strlit("listen");
    reveal_strlit("bind");
    reveal_strlit("port");
    reveal_strlit("maxconnections");
    reveal_strlit("proxy");
    reveal_strlit("onion");
    reveal_strlit("upnp");
    reveal_strlit("server");
    reveal_strlit("rpcuser");
    reveal_strlit("rpcpassword");
    reveal_strlit("rpcauth");
    reveal_strlit("rpcport");
    reveal_strlit("rpcbind");
    reveal_strlit("rpcallowip");
    reveal_strlit("rpcthreads");
    reveal_strlit("disablewallet");
    reveal_strlit("fallbackfee");
    reveal_strlit("discardfee");
    reveal_strlit("mintxfee");
    reveal_strlit("paytxfee");
    reveal_strlit("debug");
    reveal_strlit("logips");
    reveal_strlit("shrinkdebugfile");
    assert(m[0].key.len() != m[33].key.len());
    assert(m[1].key.len() != m[33].key.len());
    assert(m[2].key.len() != m[33].key.len());
    assert(m[3].key.len() != m[33].key.len());
    assert(m[4].key.len() != m[33].key.len());
    assert(m[5].key.len() != m[33].key.len());
    assert(m[6].key.len() != m[33].key.len());
    assert(m[7].key.len() != m[33].key.len());
    assert(m[8].key.len() != m[33].key.len());
    assert(m[9].key.len() != m[33].key.len());
    assert(m[10].key.len() != m[33].key.len());
    assert(m[11].key.len() != m[33].key.len());
    assert(m[12].key.len() != m[33].key.len());
    assert(m[13].key[0] != m[33].key[0]);
    assert(m[14].key.len() != m[33].key.len());
    assert(m[15].key.len() != m[33].key.len());
    assert(m[16].key.len() != m[33].key.len());
    assert(m[17].key.len() != m[33].key.len());
    assert(m[18].key.len() != m[33].key.len());
    assert(m[19].key.len() != m[33].key.len());
    assert(m[20].key.len() != m[33].key.len());
    assert(m[21].key.len() != m[33].key.len());
    assert(m[22].key.len() != m[33].key.len());
    assert(m[23].key.len() != m[33].key.len());
    assert(m[24].key.len() != m[33].key.len());
    assert(m[25].key.len() != m[33].key.len());
    assert(m[26].key.len() != m[33].key.len());
    assert(m[27].key.len() != m[33].key.len());
    assert(m[28].key.len() != m[33].key.len());
    assert(m[29].key.len() != m[33].key.len());
    assert(m[30].key.len() != m[33].key.len());
    assert(m[31].key.len() != m[33].key.len());
    assert(m[32].key.len() != m[33].key.len());
}

proof fn lemma_key_first_34()
    ensures
        key_first_at(default_schema_model(), 34),
{
    let m = default_schema_model();
    reveal_strlit("minrelaytxfee");
    reveal_strlit("datadir");
    reveal_strlit("txindex");
    reveal_strlit("prune");
    reveal_strlit("blocksonly");
    reveal_strlit("dbcache");
    reveal_strlit("maxmempool");
    reveal_strlit("pid");
    reveal_strlit("testnet");
    reveal_strlit("regtest");
    reveal_strlit("signet");
    reveal_strlit("listen");
    reveal_strlit("bind");
    reveal_strlit("port");
    reveal_strlit("maxconnections");
    reveal_strlit("proxy");
    reveal_strlit("onion");
    reveal_strlit("upnp");
    reveal_strlit("server");
    reveal_strlit("rpcuser");
    reveal_strlit("rpcpassword");
    reveal_strlit("rpcauth");
    reveal_strlit("rpcport");
    reveal_strlit("rpcbind");
    reveal_strlit("rpcallowip");
    reveal_strlit("rpcthreads");
    reveal_strlit("disablewallet");
    reveal_strlit("fallbackfee");
    reveal_strlit("discardfee");
    reveal_strlit("mintxfee");
    reveal_strlit("paytxfee");
    reveal_strlit("debug");
    reveal_strlit("logips");
    reveal_strlit("shrinkdebugfile");
    reveal_strlit("blockmaxweight");
    assert(m[0].key.len() != m[34].key.len());
    assert(m[1].key.len() != m[34].key.len());
    assert(m[2].key.len() != m[34].key.len());
    assert(m[3].key.len() != m[34].key.len());
    assert(m[4].key.len() != m[34].key.len());
    assert(m[5].key.len() != m[34].key.len());
    assert(m[6].key.len() != m[34].key.len());
    assert(m[7].key.len() != m[34].key.len());
    assert(m[8].key.len() != m[34].key.len());
    assert(m[9].key.len() != m[34].key.len());
    assert(m[10].key.len() != m[34].key.len());
    assert(m[11].key.len() != m[34].key.len());
    assert(m[12].key.len() != m[34].key.len());
    assert(m[13].key.len() != m[34].key.len());
    assert(m[14].key.len() != m[34].key.len());
    assert(m[15].key.len() != m[34].key.len());
    assert(m[16].key.len() != m[34].key.len());
    assert(m[17].key.len() != m[34].key.len());
    assert(m[18].key.len() != m[34].key.len());
    assert(m[19].key.len() != m[34].key.len());
    assert(m[20].key.len() != m[34].key.len());
    assert(m[21].key.len() != m[34].key.len());
    assert(m[22].key.len() != m[34].key.len());
    assert(m[23].key.len() != m[34].key.len());
    assert(m[24].key.len() != m[34].key.len());
    assert(m[25].key[0] != m[34].key[0]);
    assert(m[26].key.len() != m[34].key.len());
    assert(m[27].key.len() != m[34].key.len());
    assert(m[28].key.len() != m[34].key.len());
    assert(m[29].key.len() != m[34].key.len());
    assert(m[30].key.len() != m[34].key.len());
    assert(m[31].key.len() != m[34].key.len());
    assert(m[32].key.len() != m[34].key.len());
    assert(m[33].key.len() != m[34].key.len());
}

proof fn lemma_key_first_35()
    ensures
        key_first_at(default_schema_model(), 35),
{
    let m = default_schema_model();
    reveal_strlit("zmqpubhashblock");
    reveal_strlit("datadir");
    reveal_strlit("txindex");
    reveal_strlit("prune");
    reveal_strlit("blocksonly");
    reveal_strlit("dbcache");
    reveal_strlit("maxmempool");
    reveal_strlit("pid");
    reveal_strlit("testnet");
    reveal_strlit("regtest");
    reveal_strlit("signet");
    reveal_strlit("listen");
    reveal_strlit("bind");
    reveal_strlit("port");
    reveal_strlit("maxconnections");
    reveal_strlit("proxy");
    reveal_strlit("onion");
    reveal_strlit("upnp");
    reveal_strlit("server");
    reveal_strlit("rpcuser");
    reveal_strlit("rpcpassword");
    reveal_strlit("rpcauth");
    reveal_strlit("rpcport");
    reveal_strlit("rpcbind");
    reveal_strlit("rpcallowip");
    reveal_strlit("rpcthreads");
    reveal_strlit("disablewallet");
    reveal_strlit("fallbackfee");
    reveal_strlit("discardfee");
    reveal_strlit("mintxfee");
    reveal_strlit("paytxfee");
    reveal_strlit("debug");
    reveal_strlit("logips");
    reveal_strlit("shrinkdebugfile");
    reveal_strlit("blockmaxweight");
    reveal_strlit("minrelaytxfee");
    assert(m[0].key.len() != m[35].key.len());
    assert(m[1].key.len() != m[35].key.len());
    assert(m[2].key.len() != m[35].key.len());
    assert(m[3].key.len() != m[35].key.len());
    assert(m[4].key.len() != m[35].key.len());
    assert(m[5].key.len() != m[35].key.len());
    assert(m[6].key.len() != m[35].key.len());
    assert(m[7].key.len() != m[35].key.len());
    assert(m[8].key.len() != m[35].key.len());
    assert(m[9].key.len() != m[35].key.len());
    assert(m[10].key.len() != m[35].key.len());
    assert(m[11].key.len() != m[35].key.len());
    assert(m[12].key.len() != m[35].key.len());
    assert(m[13].key.len() != m[35].key.len());
    assert(m[14].key.len() != m[35].key.len());
    assert(m[15].key.len() != m[35].key.len());
    assert(m[16].key.len() != m[35].key.len());
    assert(m[17].key.len() != m[35].key.len());
    assert(m[18].key.len() != m[35].key.len());
    assert(m[19].key.len() != m[35].key.len());
    assert(m[20].key.len() != m[35].key.len());
    assert(m[21].key.len() != m[35].key.len());
    assert(m[22].key.len() != m[35].key.len());
    assert(m[23].key.len() != m[35].key.len());
    assert(m[24].key.len() != m[35].key.len());
    assert(m[25].key.len() != m[35].key.len());
    assert(m[26].key.len() != m[35].key.len());
    assert(m[27].key.len() != m[35].key.len());
    assert(m[28].key.len() != m[35].key.len());
    assert(m[29].key.len() != m[35].key.len());
    assert(m[30].key.len() != m[35].key.len());
    assert(m[31].key.len() != m[35].key.len());
    assert(m[32].key[0] != m[35].key[0]);
    assert(m[33].key.len() != m[35].key.len());
    assert(m[34].key.len() != m[35].key.len());
}

proof fn lemma_key_first_36()
    ensures
        key_first_at(default_schema_model(), 36),
{
    let m = default_schema_model();
    reveal_strlit("zmqpubhashtx");
    reveal_strlit("datadir");
    reveal_strlit("txindex");
    reveal_strlit("prune");
    reveal_strlit("blocksonly");
    reveal_strlit("dbcache");
    reveal_strlit("maxmempool");
    reveal_strlit("pid");
    reveal_strlit("testnet");
    reveal_strlit("regtest");
    reveal_strlit("signet");
    reveal_strlit("listen");
    reveal_strlit("bind");
    reveal_strlit("port");
    reveal_strlit("maxconnections");
    reveal_strlit("proxy");
    reveal_strlit("onion");
    reveal_strlit("upnp");
    reveal_strlit("server");
    reveal_strlit("rpcuser");
    reveal_strlit("rpcpassword");
    reveal_strlit("rpcauth");
    reveal_strlit("rpcport");
    reveal_strlit("rpcbind");
    reveal_strlit("rpcallowip");
    reveal_strlit("rpcthreads");
    reveal_strlit("disablewallet");
    reveal_strlit("fallbackfee");
    reveal_strlit("discardfee");
    reveal_strlit("mintxfee");
    reveal_strlit("paytxfee");
    reveal_strlit("debug");
    reveal_strlit("logips");
    reveal_strlit("shrinkdebugfile");
    reveal_strlit("blockmaxweight");
    reveal_strlit("minrelaytxfee");
    reveal_strlit("zmqpubhashblock");
    assert(m[0].key.len() != m[36].key.len());
    assert(m[1].key.len() != m[36].key.len());
    assert(m[2].key.len() != m[36].key.len());
    assert(m[3].key.len() != m[36].key.len());
    assert(m[4].key.len() != m[36].key.len());
    assert(m[5].key.len() != m[36].key.len());
    assert(m[6].key.len() != m[36].key.len());
    assert(m[7].key.len() != m[36].key.len());
    assert(m[8].key.len() != m[36].key.len());
    assert(m[9].key.len() != m[36].key.len());
    assert(m[10].key.len() != m[36].key.len());
    assert(m[11].key.len() != m[36].key.len());
    assert(m[12].key.len() != m[36].key.len());
    assert(m[13].key.len() != m[36].key.len());
    assert(m[14].key.len() != m[36].key.len());
    assert(m[15].key.len() != m[36].key.len());
    assert(m[16].key.len() != m[36].key.len());
    assert(m[17].key.len() != m[36].key.len());
    assert(m[18].key.len() != m[36].key.len());
    assert(m[19].key.len() != m[36].key.len());
    assert(m[20].key.len() != m[36].key.len());
    assert(m[21].key.len() != m[36].key.len());
    assert(m[22].key.len() != m[36].key.len());
    assert(m[23].key.len() != m[36].key.len());
    assert(m[24].key.len() != m[36].key.len());
    assert(m[25].key.len() != m[36].key.len());
    assert(m[26].key.len() != m[36].key.len());
    assert(m[27].key.len() != m[36].key.len());
    assert(m[28].key.len() != m[36].key.len());
    assert(m[29].key.len() != m[36].key.len());
    assert(m[30].key.len() != m[36].key.len());
    assert(m[31].key.len() != m[36].key.len());
    assert(m[32].key.len() != m[36].key.len());
    assert(m[33].key.len() != m[36].key.len());
    assert(m[34].key.len() != m[36].key.len());
    assert(m[35].key.len() != m[36].key.len());
}

proof fn lemma_key_first_37()
    ensures
        key_first_at(default_schema_model(), 37),
{
    let m = default_schema_model();
    reveal_strlit("zmqpubrawblock");
    reveal_strlit("datadir");
    reveal_strlit("txindex");
    reveal_strlit("prune");
    reveal_strlit("blocksonly");
    reveal_strlit("dbcache");
    reveal_strlit("maxmempool");
    reveal_strlit("pid");
    reveal_strlit("testnet");
    reveal_strlit("regtest");
    reveal_strlit("signet");
    reveal_strlit("listen");
    reveal_strlit("bind");
    reveal_strlit("port");
    reveal_strlit("maxconnections");
    reveal_strlit("proxy");
    reveal_strlit("onion");
    reveal_strlit("upnp");
    reveal_strlit("server");
    reveal_strlit("rpcuser");
    reveal_strlit("rpcpassword");
    reveal_strlit("rpcauth");
    reveal_strlit("rpcport");
    reveal_strlit("rpcbind");
    reveal_strlit("rpcallowip");
    reveal_strlit("rpcthreads");
    reveal_strlit("disablewallet");
    reveal_strlit("fallbackfee");
    reveal_strlit("discardfee");
    reveal_strlit("mintxfee");
    reveal_strlit("paytxfee");
    reveal_strlit("debug");
    reveal_strlit("logips");
    reveal_strlit("shrinkdebugfile");
    reveal_strlit("blockmaxweight");
    reveal_strlit("minrelaytxfee");
    reveal_strlit("zmqpubhashblock");
    reveal_strlit("zmqpubhashtx");
    assert(m[0].key.len() != m[37].key.len());
    assert(m[1].key.len() != m[37].key.len());
    assert(m[2].key.len() != m[37].key.len());
    assert(m[3].key.len() != m[37].key.len());
    assert(m[4].key.len() != m[37].key.len());
    assert(m[5].key.len() != m[37].key.len());
    assert(m[6].key.len() != m[37].key.len());
    assert(m[7].key.len() != m[37].key.len());
    assert(m[8].key.len() != m[37].key.len());
    assert(m[9].key.len() != m[37].key.len());
    assert(m[10].key.len() != m[37].key.len());
    assert(m[11].key.len() != m[37].key.len());
    assert(m[12].key.len() != m[37].key.len());
    assert(m[13].key[0] != m[37].key[0]);
    assert(m[14].key.len() != m[37].key.len());
    assert(m[15].key.len() != m[37].key.len());
    assert(m[16].key.len() != m[37].key.len());
    assert(m[17].key.len() != m[37].key.len());
    assert(m[18].key.len() != m[37].key.len());
    assert(m[19].key.len() != m[37].key.len());
    assert(m[20].key.len() != m[37].key.len());
    assert(m[21].key.len() != m[37].key.len());
    assert(m[22].key.len() != m[37].key.len());
    assert(m[23].key.len() != m[37].key.len());
    assert(m[24].key.len() != m[37].key.len());
    assert(m[25].key.len() != m[37].key.len());
    assert(m[26].key.len() != m[37].key.len());
    assert(m[27].key.len() != m[37].key.len());
    assert(m[28].key.len() != m[37].key.len());
    assert(m[29].key.len() != m[37].key.len());
    assert(m[30].key.len() != m[37].key.len());
    assert(m[31].key.len() != m[37].key.len());
    assert(m[32].key.len() != m[37].key.len());
    assert(m[33].key[0] != m[37].key[0]);
    assert(m[34].key.len() != m[37].key.len());
    assert(m[35].key.len() != m[37].key.len());
    assert(m[36].key.len() != m[37].key.len());
}

proof fn lemma_key_first_38()
    ensures
        key_first_at(default_schema_model(), 38),
{
    let m = default_schema_model();
    reveal_strlit("zmqpubrawtx");
    reveal_strlit("datadir");
    reveal_strlit("txindex");
    reveal_strlit("prune");
    reveal_strlit("blocksonly");
    reveal_strlit("dbcache");
    reveal_strlit("maxmempool");
    reveal_strlit("pid");
    reveal_strlit("testnet");
    reveal_strlit("regtest");
    reveal_strlit("signet");
    reveal_strlit("listen");
    reveal_strlit("bind");
    reveal_strlit("port");
    reveal_strlit("maxconnections");
    reveal_strlit("proxy");
    reveal_strlit("onion");
    reveal_strlit("upnp");
    reveal_strlit("server");
    reveal_strlit("rpcuser");
    reveal_strlit("rpcpassword");
    reveal_strlit("rpcauth");
    reveal_strlit("rpcport");
    reveal_strlit("rpcbind");
    reveal_strlit("rpcallowip");
    reveal_strlit("rpcthreads");
    reveal_strlit("disablewallet");
    reveal_strlit("fallbackfee");
    reveal_strlit("discardfee");
    reveal_strlit("mintxfee");
    reveal_strlit("paytxfee");
    reveal_strlit("debug");
    reveal_strlit("logips");
    reveal_strlit("shrinkdebugfile");
    reveal_strlit("blockmaxweight");
    reveal_strlit("minrelaytxfee");
    reveal_strlit("zmqpubhashblock");
    reveal_strlit("zmqpubhashtx");
    reveal_strlit("zmqpubrawblock");
    assert(m[0].key.len() != m[38].key.len());
    assert(m[1].key.len() != m[38].key.len());
    assert(m[2].key.len() != m[38].key.len());
    assert(m[3].key.len() != m[38].key.len());
    assert(m[4].key.len() != m[38].key.len());
    assert(m[5].key.len() != m[38].key.len());
    assert(m[6].key.len() != m[38].key.len());
    assert(m[7].key.len() != m[38].key.len());
    assert(m[8].key.len() != m[38].key.len());
    assert(m[9].key.len() != m[38].key.len());
    assert(m[10].key.len() != m[38].key.len());
    assert(m[11].key.len() != m[38].key.len());
    assert(m[12].key.len() != m[38].key.len());
    assert(m[13].key.len() != m[38].key.len());
    assert(m[14].key.len() != m[38].key.len());
    assert(m[15].key.len() != m[38].key.len());
    assert(m[16].key.len() != m[38].key.len());
    assert(m[17].key.len() != m[38].key.len());
    assert(m[18].key.len() != m[38].key.len());
    assert(m[19].key[0] != m[38].key[0]);
    assert(m[20].key.len() != m[38].key.len());
    assert(m[21].key.len() != m[38].key.len());
    assert(m[22].key.len() != m[38].key.len());
    assert(m[23].key.len() != m[38].key.len());
    assert(m[24].key.len() != m[38].key.len());
    assert(m[25].key.len() != m[38].key.len());
    assert(m[26].key[0] != m[38].key[0]);
    assert(m[27].key.len() != m[38].key.len());
    assert(m[28].key.len() != m[38].key.len());
    assert(m[29].key.len() != m[38].key.len());
    assert(m[30].key.len() != m[38].key.len());
    assert(m[31].key.len() != m[38].key.len());
    assert(m[32].key.len() != m[38].key.len());
    assert(m[33].key.len() != m[38].key.len());
    assert(m[34].key.len() != m[38].key.len());
    assert(m[35].key.len() != m[38].key.len());
    assert(m[36].key.len() != m[38].key.len());
    assert(m[37].key.len() != m[38].key.len());
}

/// No row of the table has the key of an earlier row.
pub proof fn lemma_schema_keys_distinct(i: int)
    requires
        0 <= i < default_schema_model().len(),
    ensures
        key_first_at(default_schema_model(), i),
{
    if i == 0 {
        } else if i == 1 {
            lemma_key_first_1();
        } else if i == 2 {
            lemma_key_first_2();
        } else if i == 3 {
            lemma_key_first_3();
        } else if i == 4 {
            lemma_key_first_4();
        } else if i == 5 {
            lemma_key_first_5();
        } else if i == 6 {
            lemma_key_first_6();
        } else if i == 7 {
            lemma_key_first_7();
        } else if i == 8 {
            lemma_key_first_8();
        } else if i == 9 {
            lemma_key_first_9();
        } else if i == 10 {
            lemma_key_first_10();
        } else if i == 11 {
            lemma_key_first_11();
        } else if i == 12 {
            lemma_key_first_12();
        } else if i == 13 {
            lemma_key_first_13();
        } else if i == 14 {
            lemma_key_first_14();
        } else if i == 15 {
            lemma_key_first_15();
        } else if i == 16 {
            lemma_key_first_16();
        } else if i == 17 {
            lemma_key_first_17();
        } else if i == 18 {
            lemma_key_first_18();
        } else if i == 19 {
            lemma_key_first_19();
        } else if i == 20 {
            lemma_key_first_20();
        } else if i == 21 {
            lemma_key_first_21();
        } else if i == 22 {
            lemma_key_first_22();
        } else if i == 23 {
            lemma_key_first_23();
        } else if i == 24 {
            lemma_key_first_24();
        } else if i == 25 {
            lemma_key_first_25();
        } else if i == 26 {
            lemma_key_first_26();
        } else if i == 27 {
            lemma_key_first_27();
        } else if i == 28 {
            lemma_key_first_28();
        } else if i == 29 {
            lemma_key_first_29();
        } else if i == 30 {
            lemma_key_first_30();
        } else if i == 31 {
            lemma_key_first_31();
        } else if i == 32 {
            lemma_key_first_32();
        } else if i == 33 {
            lemma_key_first_33();
        } else if i == 34 {
            lemma_key_first_34();
        } else if i == 35 {
            lemma_key_first_35();
        } else if i == 36 {
            lemma_key_first_36();
        } else if i == 37 {
            lemma_key_first_37();
        } else if i == 38 {
            lemma_key_first_38();
    }
}

/// Looking up the key of a row of the table finds that row.
pub proof fn lemma_schema_lookup(i: int)
    requires
        0 <= i < default_schema_model().len(),
    ensures
        lookup(default_schema_model(), default_schema_model()[i].key) == Some(default_schema_model()[i]),
{
    lemma_schema_keys_distinct(i);
    lemma_lookup_first(default_schema_model(), i);
}

/// A line of a `bitcoin.conf` text that sets a known key gives an enabled entry
/// with that key, the trimmed value of the line, and the key's row of the table.
pub proof fn lemma_present_known_key(text: Seq<char>, l: int, i: int)
    requires
        0 <= l < lines_of(text).len(),
        0 <= i < default_schema_model().len(),
        sets_key(lines_of(text)[l], default_schema_model()[i].key),
    ensures
        ({
            let kv = parse_line(lines_of(text)[l])->0;
            holds_entry(
                parse_model(text, default_schema_model()),
                (EntryModel {
                    key: kv.0,
                    value: kv.1,
                    schema: Some(default_schema_model()[i]),
                    enabled: true,
                }),
            )
        }),
{
    lemma_present_key_enabled(text, default_schema_model(), l);
    lemma_schema_lookup(i);
    let kv = parse_line(lines_of(text)[l])->0;
    assert(entry_model(kv, default_schema_model()) == (EntryModel {
        key: kv.0,
        value: kv.1,
        schema: Some(default_schema_model()[i]),
        enabled: true,
    }));
}

fn schema_row(
    key: &str,
    value_type: ConfigType,
    section: &str,
    description: &str,
    default: &str,
) -> (r: ConfigSchema)
    ensures
        r@ == row(key, value_type, section, description, default),
{
    ConfigSchema {
        key: key.to_owned(),
        value_type,
        section: section.to_owned(),
        description: description.to_owned(),
        default: default.to_owned(),
    }
}

/// The table of known keys, with type, section, description and default of each.
pub fn get_default_schema() -> (r: Vec<ConfigSchema>)
    ensures
        r@.map_values(|s: ConfigSchema| s@) == default_schema_model(),
{
    let mut v: Vec<ConfigSchema> = Vec::new();
    v.push(schema_row("datadir", ConfigType::String, "Core",
        "Directory to store data.",
        ""));
    v.push(schema_row("txindex", ConfigType::Boolean, "Core",
        "Maintain a full transaction index.",
        "0"));
    v.push(schema_row("prune", ConfigType::Integer, "Core",
        "Reduce storage requirements by enabling pruning (deleting) of old blocks. 0 = disable.",
        "0"));
    v.push(schema_row("blocksonly", ConfigType::Boolean, "Core",
        "Reject transactions from network peers.",
        "0"));
    v.push(schema_row("dbcache", ConfigType::Integer, "Core",
        "Database cache size in megabytes.",
        "450"));
    v.push(schema_row("maxmempool", ConfigType::Integer, "Core",
        "Keep the transaction memory pool below <n> megabytes.",
        "300"));
    v.push(schema_row("pid", ConfigType::String, "Core",
        "Specify pid file. Relative paths will be prefixed by a net-specific datadir location.",
        "bitcoind.pid"));
    v.push(schema_row("testnet", ConfigType::Boolean, "Network",
        "Run on the test network.",
        "0"));
    v.push(schema_row("regtest", ConfigType::Boolean, "Network",
        "Run on the regression test network.",
        "0"));
    v.push(schema_row("signet", ConfigType::Boolean, "Network",
        "Run on the signet network.",
        "0"));
    v.push(schema_row("listen", ConfigType::Boolean, "Network",
        "Accept connections from outside.",
        "1"));
    v.push(schema_row("bind", ConfigType::String, "Network",
        "Bind to given address and always listen on it. Use [host]:port notation for IPv6.",
        "0.0.0.0"));
    v.push(schema_row("port", ConfigType::Integer, "Network",
        "Listen for connections on <port>.",
        "8333"));
    v.push(schema_row("maxconnections", ConfigType::Integer, "Network",
        "Maintain at most <n> connections to peers.",
        "125"));
    v.push(schema_row("proxy", ConfigType::String, "Network",
        "Connect through SOCKS5 proxy.",
        ""));
    v.push(schema_row("onion", ConfigType::String, "Network",
        "Use separate SOCKS5 proxy to reach peers via Tor onion services.",
        ""));
    v.push(schema_row("upnp", ConfigType::Boolean, "Network",
        "Use UPnP to map the listening port.",
        "0"));
    v.push(schema_row("server", ConfigType::Boolean, "RPC",
        "Accept command line and JSON-RPC commands.",
        "0"));
    v.push(schema_row("rpcuser", ConfigType::String, "RPC",
        "Username for JSON-RPC connections.",
        ""));
    v.push(schema_row("rpcpassword", ConfigType::String, "RPC",
        "Password for JSON-RPC connections.",
        ""));
    v.push(schema_row("rpcauth", ConfigType::String, "RPC",
        "Username and hashed password for JSON-RPC connections.",
        ""));
    v.push(schema_row("rpcport", ConfigType::Integer, "RPC",
        "Listen for JSON-RPC connections on <port>.",
        "8332"));
    v.push(schema_row("rpcbind", ConfigType::String, "RPC",
        "Bind to given address to listen for JSON-RPC connections.",
        ""));
    v.push(schema_row("rpcallowip", ConfigType::String, "RPC",
        "Allow JSON-RPC connections from specified source. Valid for <ip> are a single IP (e.g. 1.2.3.4), a network/netmask (e.g. 1.2.3.4/255.255.255.0) or a network/CIDR (e.g. 1.2.3.4/24).",
        ""));
    v.push(schema_row("rpcthreads", ConfigType::Integer, "RPC",
        "Set the number of threads to service RPC calls.",
        "4"));
    v.push(schema_row("disablewallet", ConfigType::Boolean, "Wallet",
        "Do not load the wallet and disable wallet RPC calls.",
        "0"));
    v.push(schema_row("fallbackfee", ConfigType::String, "Wallet",
        "A fee rate (in BTC/kvB) that will be used when fee estimation has insufficient data.",
        "0.00021"));
    v.push(schema_row("discardfee", ConfigType::String, "Wallet",
        "The fee rate (in BTC/kvB) that indicates your tolerance for discarding change by adding it to the fee.",
        "0.0001"));
    v.push(schema_row("mintxfee", ConfigType::String, "Wallet",
        "Fees (in BTC/kvB) smaller than this are considered zero fee for transaction creation.",
        "0.00001"));
    v.push(schema_row("paytxfee", ConfigType::String, "Wallet",
        "Fee (in BTC/kvB) to add to transactions you send.",
        "0.00"));
    v.push(schema_row("debug", ConfigType::String, "Debug",
        "Output debugging information (default: 0, supplying <category> is optional).",
        ""));
    v.push(schema_row("logips", ConfigType::Boolean, "Debug",
        "Include IP addresses in debug output.",
        "0"));
    v.push(schema_row("shrinkdebugfile", ConfigType::Boolean, "Debug",
        "Shrink debug.log file on client startup (default: 1 when no -debug).",
        "1"));
    v.push(schema_row("blockmaxweight", ConfigType::Integer, "Mining",
        "Set maximum BIP141 block weight (default: 3996000).",
        "3996000"));
    v.push(schema_row("minrelaytxfee", ConfigType::String, "Mining",
        "Fees (in BTC/kvB) smaller than this are considered zero fee for relaying, mining and transaction creation.",
        "0.00001"));
    v.push(schema_row("zmqpubhashblock", ConfigType::String, "ZMQ",
        "Enable publish hash block in <address>.",
        "tcp://127.0.0.1:28332"));
    v.push(schema_row("zmqpubhashtx", ConfigType::String, "ZMQ",
        "Enable publish hash transaction in <address>.",
        "tcp://127.0.0.1:28332"));
    v.push(schema_row("zmqpubrawblock", ConfigType::String, "ZMQ",
        "Enable publish raw block in <address>.",
        "tcp://127.0.0.1:28332"));
    v.push(schema_row("zmqpubrawtx", ConfigType::String, "ZMQ",
        "Enable publish raw transaction in <address>.",
        "tcp://127.0.0.1:28332"));
    assert(v@.map_values(|s: ConfigSchema| s@) =~= default_schema_model());
    v
}

} // verus!
