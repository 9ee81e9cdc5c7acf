//! Kwollect input: units of the metric names, and the query sent to the Grid'5000 API.

use vstd::prelude::*;
use crate::pieces::split_all_chars;
use crate::text::{
    chars_of, dec_digits, dec_of, is_word, joined, push_all, push_str, split_all, string_of,
    views_of,
};

verus! {

/// The configuration of the Kwollect input.
#[derive(Debug, Clone, PartialEq, Eq)]
pub struct Config {
    pub site: String,
    pub hostname: String,
    pub metrics: Vec<String>,
    pub login: String,
    pub password: String,
    pub utc_offset: Option<i32>,
}

impl Default for Config {
    fn default() -> (c: Self)
        ensures
            c.site@ == "cluster"@,
            c.hostname@ == "node"@,
            c.metrics@.len() == 1 && c.metrics@[0]@ == "metric"@,
            c.login@ == "login"@,
            c.password@ == "password"@,
            c.utc_offset == Some(2i32),
    {
        let mut metrics = Vec::new();
        metrics.push("metric".to_owned());
        Config {
            site: "cluster".to_owned(),
            hostname: "node".to_owned(),
            metrics,
            login: "login".to_owned(),
            password: "password".to_owned(),
            utc_offset: Some(2),
        }
    }
}

/// The UCUM form of a unit name used by Kwollect; names that it does not know stay as they are.
pub open spec fn normalized_unit(u: Seq<char>) -> Seq<char> {
    if u == "watt"@ {
        "W"@
    } else if u == "kilowatt"@ {
        "kW"@
    } else if u == "watthour"@ {
        "W.h"@
    } else if u == "celsius"@ {
        "Cel"@
    } else if u == "percent"@ || u == "%"@ {
        "%"@
    } else if u == "VA"@ {
        "V.A"@
    } else if u == "VAr"@ {
        "V.A_r"@
    } else if u == "amp"@ || u == "ampere"@ {
        "A"@
    } else if u == "volt"@ {
        "V"@
    } else if u == "hertz"@ {
        "Hz"@
    } else if u == "lux"@ {
        "lx"@
    } else if u == "bar"@ {
        "bar"@
    } else if u == "deg"@ {
        "°"@
    } else if u == "m/s"@ {
        "m/s"@
    } else if u == "rpm"@ {
        "rpm"@
    } else if u == "cfm"@ {
        "[cft_i]/min"@
    } else if u == "bytes"@ {
        "By"@
    } else if u == "packets"@ {
        "tot."@
    } else {
        u
    }
}

/// Normalizing a unit twice gives what normalizing it once gives: every UCUM form that
/// [`normalize_unit`] produces is left as it is.
pub proof fn lemma_normalized_unit_idempotent(u: Seq<char>)
    ensures
        normalized_unit(normalized_unit(u)) == normalized_unit(u),
{
    assert(normalized_unit("W"@) == "W"@) by {
        reveal_strlit("W");
        reveal_strlit("watt");
        reveal_strlit("kilowatt");
        reveal_strlit("watthour");
        reveal_strlit("celsius");
        reveal_strlit("percent");
        reveal_strlit("%");
        reveal_strlit("VA");
        reveal_strlit("VAr");
        reveal_strlit("amp");
        reveal_strlit("ampere");
        reveal_strlit("volt");
        reveal_strlit("hertz");
        reveal_strlit("lux");
        reveal_strlit("bar");
        reveal_strlit("deg");
        reveal_strlit("m/s");
        reveal_strlit("rpm");
        reveal_strlit("cfm");
        reveal_strlit("bytes");
        reveal_strlit("packets");
        assert("W"@[0] != "%"@[0]);
    }
    assert(normalized_unit("kW"@) == "kW"@) by {
        reveal_strlit("kW");
        reveal_strlit("watt");
        reveal_strlit("kilowatt");
        reveal_strlit("watthour");
        reveal_strlit("celsius");
        reveal_strlit("percent");
        reveal_strlit("%");
        reveal_strlit("VA");
        reveal_strlit("VAr");
        reveal_strlit("amp");
        reveal_strlit("ampere");
        reveal_strlit("volt");
        reveal_strlit("hertz");
        reveal_strlit("lux");
        reveal_strlit("bar");
        reveal_strlit("deg");
        reveal_strlit("m/s");
        reveal_strlit("rpm");
        reveal_strlit("cfm");
        reveal_strlit("bytes");
        reveal_strlit("packets");
        assert("kW"@[0] != "VA"@[0]);
    }
    assert(normalized_unit("W.h"@) == "W.h"@) by {
        reveal_strlit("W.h");
        reveal_strlit("watt");
        reveal_strlit("kilowatt");
        reveal_strlit("watthour");
        reveal_strlit("celsius");
        reveal_strlit("percent");
        reveal_strlit("%");
        reveal_strlit("VA");
        reveal_strlit("VAr");
        reveal_strlit("amp");
        reveal_strlit("ampere");
        reveal_strlit("volt");
        reveal_strlit("hertz");
        reveal_strlit("lux");
        reveal_strlit("bar");
        reveal_strlit("deg");
        reveal_strlit("m/s");
        reveal_strlit("rpm");
        reveal_strlit("cfm");
        reveal_strlit("bytes");
        reveal_strlit("packets");
        assert("W.h"@[0] != "VAr"@[0]);
        assert("W.h"@[0] != "amp"@[0]);
        assert("W.h"@[0] != "lux"@[0]);
        assert("W.h"@[0] != "bar"@[0]);
        assert("W.h"@[0] != "deg"@[0]);
        assert("W.h"@[0] != "m/s"@[0]);
        assert("W.h"@[0] != "rpm"@[0]);
        assert("W.h"@[0] != "cfm"@[0]);
    }
    assert(normalized_unit("Cel"@) == "Cel"@) by {
        reveal_strlit("Cel");
        reveal_strlit("watt");
        reveal_strlit("kilowatt");
        reveal_strlit("watthour");
        reveal_strlit("celsius");
        reveal_strlit("percent");
        reveal_strlit("%");
        reveal_strlit("VA");
        reveal_strlit("VAr");
        reveal_strlit("amp");
        reveal_strlit("ampere");
        reveal_strlit("volt");
        reveal_strlit("hertz");
        reveal_strlit("lux");
        reveal_strlit("bar");
        reveal_strlit("deg");
        reveal_strlit("m/s");
        reveal_strlit("rpm");
        reveal_strlit("cfm");
        reveal_strlit("bytes");
        reveal_strlit("packets");
        assert("Cel"@[0] != "VAr"@[0]);
        assert("Cel"@[0] != "amp"@[0]);
        assert("Cel"@[0] != "lux"@[0]);
        assert("Cel"@[0] != "bar"@[0]);
        assert("Cel"@[0] != "deg"@[0]);
        assert("Cel"@[0] != "m/s"@[0]);
        assert("Cel"@[0] != "rpm"@[0]);
        assert("Cel"@[0] != "cfm"@[0]);
    }
    assert(normalized_unit("%"@) == "%"@) by {
        reveal_strlit("%");
        reveal_strlit("watt");
        reveal_strlit("kilowatt");
        reveal_strlit("watthour");
        reveal_strlit("celsius");
        reveal_strlit("percent");
        reveal_strlit("VA");
        reveal_strlit("VAr");
        reveal_strlit("amp");
        reveal_strlit("ampere");
        reveal_strlit("volt");
        reveal_strlit("hertz");
        reveal_strlit("lux");
        reveal_strlit("bar");
        reveal_strlit("deg");
        reveal_strlit("m/s");
        reveal_strlit("rpm");
        reveal_strlit("cfm");
        reveal_strlit("bytes");
        reveal_strlit("packets");
    }
    assert(normalized_unit("V.A"@) == "V.A"@) by {
        reveal_strlit("V.A");
        reveal_strlit("watt");
        reveal_strlit("kilowatt");
        reveal_strlit("watthour");
        reveal_strlit("celsius");
        reveal_strlit("percent");
        reveal_strlit("%");
        reveal_strlit("VA");
        reveal_strlit("VAr");
        reveal_strlit("amp");
        reveal_strlit("ampere");
        reveal_strlit("volt");
        reveal_strlit("hertz");
        reveal_strlit("lux");
        reveal_strlit("bar");
        reveal_strlit("deg");
        reveal_strlit("m/s");
        reveal_strlit("rpm");
        reveal_strlit("cfm");
        reveal_strlit("bytes");
        reveal_strlit("packets");
        assert("V.A"@[1] != "VAr"@[1]);
        assert("V.A"@[0] != "amp"@[0]);
        assert("V.A"@[0] != "lux"@[0]);
        assert("V.A"@[0] != "bar"@[0]);
        assert("V.A"@[0] != "deg"@[0]);
        assert("V.A"@[0] != "m/s"@[0]);
        assert("V.A"@[0] != "rpm"@[0]);
        assert("V.A"@[0] != "cfm"@[0]);
    }
    assert(normalized_unit("V.A_r"@) == "V.A_r"@) by {
        reveal_strlit("V.A_r");
        reveal_strlit("watt");
        reveal_strlit("kilowatt");
        reveal_strlit("watthour");
        reveal_strlit("celsius");
        reveal_strlit("percent");
        reveal_strlit("%");
        reveal_strlit("VA");
        reveal_strlit("VAr");
        reveal_strlit("amp");
        reveal_strlit("ampere");
        reveal_strlit("volt");
        reveal_strlit("hertz");
        reveal_strlit("lux");
        reveal_strlit("bar");
        reveal_strlit("deg");
        reveal_strlit("m/s");
        reveal_strlit("rpm");
        reveal_strlit("cfm");
        reveal_strlit("bytes");
        reveal_strlit("packets");
        assert("V.A_r"@[0] != "hertz"@[0]);
        assert("V.A_r"@[0] != "bytes"@[0]);
    }
    assert(normalized_unit("A"@) == "A"@) by {
        reveal_strlit("A");
        reveal_strlit("watt");
        reveal_strlit("kilowatt");
        reveal_strlit("watthour");
        reveal_strlit("celsius");
        reveal_strlit("percent");
        reveal_strlit("%");
        reveal_strlit("VA");
        reveal_strlit("VAr");
        reveal_strlit("amp");
        reveal_strlit("ampere");
        reveal_strlit("volt");
        reveal_strlit("hertz");
        reveal_strlit("lux");
        reveal_strlit("bar");
        reveal_strlit("deg");
        reveal_strlit("m/s");
        reveal_strlit("rpm");
        reveal_strlit("cfm");
        reveal_strlit("bytes");
        reveal_strlit("packets");
        assert("A"@[0] != "%"@[0]);
    }
    assert(normalized_unit("V"@) == "V"@) by {
        reveal_strlit("V");
        reveal_strlit("watt");
        reveal_strlit("kilowatt");
        reveal_strlit("watthour");
        reveal_strlit("celsius");
        reveal_strlit("percent");
        reveal_strlit("%");
        reveal_strlit("VA");
        reveal_strlit("VAr");
        reveal_strlit("amp");
        reveal_strlit("ampere");
        reveal_strlit("volt");
        reveal_strlit("hertz");
        reveal_strlit("lux");
        reveal_strlit("bar");
        reveal_strlit("deg");
        reveal_strlit("m/s");
        reveal_strlit("rpm");
        reveal_strlit("cfm");
        reveal_strlit("bytes");
        reveal_strlit("packets");
        assert("V"@[0] != "%"@[0]);
    }
    assert(normalized_unit("Hz"@) == "Hz"@) by {
        reveal_strlit("Hz");
        reveal_strlit("watt");
        reveal_strlit("kilowatt");
        reveal_strlit("watthour");
        reveal_strlit("celsius");
        reveal_strlit("percent");
        reveal_strlit("%");
        reveal_strlit("VA");
        reveal_strlit("VAr");
        reveal_strlit("amp");
        reveal_strlit("ampere");
        reveal_strlit("volt");
        reveal_strlit("hertz");
        reveal_strlit("lux");
        reveal_strlit("bar");
        reveal_strlit("deg");
        reveal_strlit("m/s");
        reveal_strlit("rpm");
        reveal_strlit("cfm");
        reveal_strlit("bytes");
        reveal_strlit("packets");
        assert("Hz"@[0] != "VA"@[0]);
    }
    assert(normalized_unit("lx"@) == "lx"@) by {
        reveal_strlit("lx");
        reveal_strlit("watt");
        reveal_strlit("kilowatt");
        reveal_strlit("watthour");
        reveal_strlit("celsius");
        reveal_strlit("percent");
        reveal_strlit("%");
        reveal_strlit("VA");
        reveal_strlit("VAr");
        reveal_strlit("amp");
        reveal_strlit("ampere");
        reveal_strlit("volt");
        reveal_strlit("hertz");
        reveal_strlit("lux");
        reveal_strlit("bar");
        reveal_strlit("deg");
        reveal_strlit("m/s");
        reveal_strlit("rpm");
        reveal_strlit("cfm");
        reveal_strlit("bytes");
        reveal_strlit("packets");
        assert("lx"@[0] != "VA"@[0]);
    }
    assert(normalized_unit("bar"@) == "bar"@) by {
        reveal_strlit("bar");
        reveal_strlit("watt");
        reveal_strlit("kilowatt");
        reveal_strlit("watthour");
        reveal_strlit("celsius");
        reveal_strlit("percent");
        reveal_strlit("%");
        reveal_strlit("VA");
        reveal_strlit("VAr");
        reveal_strlit("amp");
        reveal_strlit("ampere");
        reveal_strlit("volt");
        reveal_strlit("hertz");
        reveal_strlit("lux");
        reveal_strlit("deg");
        reveal_strlit("m/s");
        reveal_strlit("rpm");
        reveal_strlit("cfm");
        reveal_strlit("bytes");
        reveal_strlit("packets");
        assert("bar"@[0] != "VAr"@[0]);
        assert("bar"@[0] != "amp"@[0]);
        assert("bar"@[0] != "lux"@[0]);
        assert("bar"@[0] != "deg"@[0]);
        assert("bar"@[0] != "m/s"@[0]);
        assert("bar"@[0] != "rpm"@[0]);
        assert("bar"@[0] != "cfm"@[0]);
    }
    assert(normalized_unit("°"@) == "°"@) by {
        reveal_strlit("°");
        reveal_strlit("watt");
        reveal_strlit("kilowatt");
        reveal_strlit("watthour");
        reveal_strlit("celsius");
        reveal_strlit("percent");
        reveal_strlit("%");
        reveal_strlit("VA");
        reveal_strlit("VAr");
        reveal_strlit("amp");
        reveal_strlit("ampere");
        reveal_strlit("volt");
        reveal_strlit("hertz");
        reveal_strlit("lux");
        reveal_strlit("bar");
        reveal_strlit("deg");
        reveal_strlit("m/s");
        reveal_strlit("rpm");
        reveal_strlit("cfm");
        reveal_strlit("bytes");
        reveal_strlit("packets");
        assert("°"@[0] != "%"@[0]);
    }
    assert(normalized_unit("m/s"@) == "m/s"@) by {
        reveal_strlit("m/s");
        reveal_strlit("watt");
        reveal_strlit("kilowatt");
        reveal_strlit("watthour");
        reveal_strlit("celsius");
        reveal_strlit("percent");
        reveal_strlit("%");
        reveal_strlit("VA");
        reveal_strlit("VAr");
        reveal_strlit("amp");
        reveal_strlit("ampere");
        reveal_strlit("volt");
        reveal_strlit("hertz");
        reveal_strlit("lux");
        reveal_strlit("bar");
        reveal_strlit("deg");
        reveal_strlit("rpm");
        reveal_strlit("cfm");
        reveal_strlit("bytes");
        reveal_strlit("packets");
        assert("m/s"@[0] != "VAr"@[0]);
        assert("m/s"@[0] != "amp"@[0]);
        assert("m/s"@[0] != "lux"@[0]);
        assert("m/s"@[0] != "bar"@[0]);
        assert("m/s"@[0] != "deg"@[0]);
        assert("m/s"@[0] != "rpm"@[0]);
        assert("m/s"@[0] != "cfm"@[0]);
    }
    assert(normalized_unit("rpm"@) == "rpm"@) by {
        reveal_strlit("rpm");
        reveal_strlit("watt");
        reveal_strlit("kilowatt");
        reveal_strlit("watthour");
        reveal_strlit("celsius");
        reveal_strlit("percent");
        reveal_strlit("%");
        reveal_strlit("VA");
        reveal_strlit("VAr");
        reveal_strlit("amp");
        reveal_strlit("ampere");
        reveal_strlit("volt");
        reveal_strlit("hertz");
        reveal_strlit("lux");
        reveal_strlit("bar");
        reveal_strlit("deg");
        reveal_strlit("m/s");
        reveal_strlit("cfm");
        reveal_strlit("bytes");
        reveal_strlit("packets");
        assert("rpm"@[0] != "VAr"@[0]);
        assert("rpm"@[0] != "amp"@[0]);
        assert("rpm"@[0] != "lux"@[0]);
        assert("rpm"@[0] != "bar"@[0]);
        assert("rpm"@[0] != "deg"@[0]);
        assert("rpm"@[0] != "m/s"@[0]);
        assert("rpm"@[0] != "cfm"@[0]);
    }
    assert(normalized_unit("[cft_i]/min"@) == "[cft_i]/min"@) by {
        reveal_strlit("[cft_i]/min");
        reveal_strlit("watt");
        reveal_strlit("kilowatt");
        reveal_strlit("watthour");
        reveal_strlit("celsius");
        reveal_strlit("percent");
        reveal_strlit("%");
        reveal_strlit("VA");
        reveal_strlit("VAr");
        reveal_strlit("amp");
        reveal_strlit("ampere");
        reveal_strlit("volt");
        reveal_strlit("hertz");
        reveal_strlit("lux");
        reveal_strlit("bar");
        reveal_strlit("deg");
        reveal_strlit("m/s");
        reveal_strlit("rpm");
        reveal_strlit("cfm");
        reveal_strlit("bytes");
        reveal_strlit("packets");
    }
    assert(normalized_unit("By"@) == "By"@) by {
        reveal_strlit("By");
        reveal_strlit("watt");
        reveal_strlit("kilowatt");
        reveal_strlit("watthour");
        reveal_strlit("celsius");
        reveal_strlit("percent");
        reveal_strlit("%");
        reveal_strlit("VA");
        reveal_strlit("VAr");
        reveal_strlit("amp");
        reveal_strlit("ampere");
        reveal_strlit("volt");
        reveal_strlit("hertz");
        reveal_strlit("lux");
        reveal_strlit("bar");
        reveal_strlit("deg");
        reveal_strlit("m/s");
        reveal_strlit("rpm");
        reveal_strlit("cfm");
        reveal_strlit("bytes");
        reveal_strlit("packets");
        assert("By"@[0] != "VA"@[0]);
    }
    assert(normalized_unit("tot."@) == "tot."@) by {
        reveal_strlit("tot.");
        reveal_strlit("watt");
        reveal_strlit("kilowatt");
        reveal_strlit("watthour");
        reveal_strlit("celsius");
        reveal_strlit("percent");
        reveal_strlit("%");
        reveal_strlit("VA");
        reveal_strlit("VAr");
        reveal_strlit("amp");
        reveal_strlit("ampere");
        reveal_strlit("volt");
        reveal_strlit("hertz");
        reveal_strlit("lux");
        reveal_strlit("bar");
        reveal_strlit("deg");
        reveal_strlit("m/s");
        reveal_strlit("rpm");
        reveal_strlit("cfm");
        reveal_strlit("bytes");
        reveal_strlit("packets");
        assert("tot."@[0] != "watt"@[0]);
        assert("tot."@[0] != "volt"@[0]);
    }
}

/// The Kwollect unit names that normalization changes, each with its UCUM code.
pub open spec fn renamed_units() -> Seq<(Seq<char>, Seq<char>)> {
    seq![
        ("watt"@, "W"@),
        ("kilowatt"@, "kW"@),
        ("watthour"@, "W.h"@),
        ("celsius"@, "Cel"@),
        ("percent"@, "%"@),
        ("VA"@, "V.A"@),
        ("VAr"@, "V.A_r"@),
        ("amp"@, "A"@),
        ("ampere"@, "A"@),
        ("volt"@, "V"@),
        ("hertz"@, "Hz"@),
        ("lux"@, "lx"@),
        ("deg"@, "°"@),
        ("cfm"@, "[cft_i]/min"@),
        ("bytes"@, "By"@),
        ("packets"@, "tot."@),
    ]
}

proof fn lemma_renamed_units()
    ensures
        forall|i: int| 0 <= i < renamed_units().len() ==> normalized_unit((#[trigger] renamed_units()[i]).0)
            == renamed_units()[i].1,
        forall|u: Seq<char>|
            normalized_unit(u) != u ==> exists|i: int| 0 <= i < renamed_units().len() && (#[trigger] renamed_units()[i]).0 == u,
{
    let t = renamed_units();
    assert(normalized_unit("watt"@) == "W"@) by {
        reveal_strlit("watt");
        reveal_strlit("kilowatt");
        reveal_strlit("watthour");
        reveal_strlit("celsius");
        reveal_strlit("percent");
        reveal_strlit("%");
        reveal_strlit("VA");
        reveal_strlit("VAr");
        reveal_strlit("amp");
        reveal_strlit("ampere");
        reveal_strlit("volt");
        reveal_strlit("hertz");
        reveal_strlit("lux");
        reveal_strlit("bar");
        reveal_strlit("deg");
        reveal_strlit("m/s");
        reveal_strlit("rpm");
        reveal_strlit("cfm");
        reveal_strlit("bytes");
        reveal_strlit("packets");
        reveal_strlit("W");
        assert("watt"@.len() == 4);
    }
    assert(normalized_unit("kilowatt"@) == "kW"@) by {
        reveal_strlit("watt");
        reveal_strlit("kilowatt");
        reveal_strlit("watthour");
        reveal_strlit("celsius");
        reveal_strlit("percent");
        reveal_strlit("%");
        reveal_strlit("VA");
        reveal_strlit("VAr");
        reveal_strlit("amp");
        reveal_strlit("ampere");
        reveal_strlit("volt");
        reveal_strlit("hertz");
        reveal_strlit("lux");
        reveal_strlit("bar");
        reveal_strlit("deg");
        reveal_strlit("m/s");
        reveal_strlit("rpm");
        reveal_strlit("cfm");
        reveal_strlit("bytes");
        reveal_strlit("packets");
        reveal_strlit("kW");
        assert("kilowatt"@.len() == 8 && "watt"@.len() == 4);
    }
    assert(normalized_unit("watthour"@) == "W.h"@) by {
        reveal_strlit("watt");
        reveal_strlit("kilowatt");
        reveal_strlit("watthour");
        reveal_strlit("celsius");
        reveal_strlit("percent");
        reveal_strlit("%");
        reveal_strlit("VA");
        reveal_strlit("VAr");
        reveal_strlit("amp");
        reveal_strlit("ampere");
        reveal_strlit("volt");
        reveal_strlit("hertz");
        reveal_strlit("lux");
        reveal_strlit("bar");
        reveal_strlit("deg");
        reveal_strlit("m/s");
        reveal_strlit("rpm");
        reveal_strlit("cfm");
        reveal_strlit("bytes");
        reveal_strlit("packets");
        reveal_strlit("W.h");
        assert("watthour"@[0] != "kilowatt"@[0]);
        assert("watthour"@.len() == 8 && "watt"@.len() == 4);
    }
    assert(normalized_unit("celsius"@) == "Cel"@) by {
        reveal_strlit("watt");
        reveal_strlit("kilowatt");
        reveal_strlit("watthour");
        reveal_strlit("celsius");
        reveal_strlit("percent");
        reveal_strlit("%");
        reveal_strlit("VA");
        reveal_strlit("VAr");
        reveal_strlit("amp");
        reveal_strlit("ampere");
        reveal_strlit("volt");
        reveal_strlit("hertz");
        reveal_strlit("lux");
        reveal_strlit("bar");
        reveal_strlit("deg");
        reveal_strlit("m/s");
        reveal_strlit("rpm");
        reveal_strlit("cfm");
        reveal_strlit("bytes");
        reveal_strlit("packets");
        reveal_strlit("Cel");
        assert("celsius"@.len() == 7 && "watt"@.len() == 4 && "kilowatt"@.len() == 8 && "watthour"@.len() == 8);
    }
    assert(normalized_unit("percent"@) == "%"@) by {
        reveal_strlit("watt");
        reveal_strlit("kilowatt");
        reveal_strlit("watthour");
        reveal_strlit("celsius");
        reveal_strlit("percent");
        reveal_strlit("%");
        reveal_strlit("VA");
        reveal_strlit("VAr");
        reveal_strlit("amp");
        reveal_strlit("ampere");
        reveal_strlit("volt");
        reveal_strlit("hertz");
        reveal_strlit("lux");
        reveal_strlit("bar");
        reveal_strlit("deg");
        reveal_strlit("m/s");
        reveal_strlit("rpm");
        reveal_strlit("cfm");
        reveal_strlit("bytes");
        reveal_strlit("packets");
        reveal_strlit("%");
        assert("percent"@[0] != "celsius"@[0]);
        assert("percent"@.len() == 7 && "watt"@.len() == 4 && "kilowatt"@.len() == 8 && "watthour"@.len() == 8);
    }
    assert(normalized_unit("VA"@) == "V.A"@) by {
        reveal_strlit("watt");
        reveal_strlit("kilowatt");
        reveal_strlit("watthour");
        reveal_strlit("celsius");
        reveal_strlit("percent");
        reveal_strlit("%");
        reveal_strlit("VA");
        reveal_strlit("VAr");
        reveal_strlit("amp");
        reveal_strlit("ampere");
        reveal_strlit("volt");
        reveal_strlit("hertz");
        reveal_strlit("lux");
        reveal_strlit("bar");
        reveal_strlit("deg");
        reveal_strlit("m/s");
        reveal_strlit("rpm");
        reveal_strlit("cfm");
        reveal_strlit("bytes");
        reveal_strlit("packets");
        reveal_strlit("V.A");
        assert("VA"@.len() == 2 && "watt"@.len() == 4 && "kilowatt"@.len() == 8 && "watthour"@.len() == 8 && "celsius"@.len() == 7 && "percent"@.len() == 7 && "%"@.len() == 1);
    }
    assert(normalized_unit("VAr"@) == "V.A_r"@) by {
        reveal_strlit("watt");
        reveal_strlit("kilowatt");
        reveal_strlit("watthour");
        reveal_strlit("celsius");
        reveal_strlit("percent");
        reveal_strlit("%");
        reveal_strlit("VA");
        reveal_strlit("VAr");
        reveal_strlit("amp");
        reveal_strlit("ampere");
        reveal_strlit("volt");
        reveal_strlit("hertz");
        reveal_strlit("lux");
        reveal_strlit("bar");
        reveal_strlit("deg");
        reveal_strlit("m/s");
        reveal_strlit("rpm");
        reveal_strlit("cfm");
        reveal_strlit("bytes");
        reveal_strlit("packets");
        reveal_strlit("V.A_r");
        assert("VAr"@.len() == 3 && "watt"@.len() == 4 && "kilowatt"@.len() == 8 && "watthour"@.len() == 8 && "celsius"@.len() == 7 && "percent"@.len() == 7 && "%"@.len() == 1 && "VA"@.len() == 2);
    }
    assert(normalized_unit("amp"@) == "A"@) by {
        reveal_strlit("watt");
        reveal_strlit("kilowatt");
        reveal_strlit("watthour");
        reveal_strlit("celsius");
        reveal_strlit("percent");
        reveal_strlit("%");
        reveal_strlit("VA");
        reveal_strlit("VAr");
        reveal_strlit("amp");
        reveal_strlit("ampere");
        reveal_strlit("volt");
        reveal_strlit("hertz");
        reveal_strlit("lux");
        reveal_strlit("bar");
        reveal_strlit("deg");
        reveal_strlit("m/s");
        reveal_strlit("rpm");
        reveal_strlit("cfm");
        reveal_strlit("bytes");
        reveal_strlit("packets");
        reveal_strlit("A");
        assert("amp"@[0] != "VAr"@[0]);
        assert("amp"@.len() == 3 && "watt"@.len() == 4 && "kilowatt"@.len() == 8 && "watthour"@.len() == 8 && "celsius"@.len() == 7 && "percent"@.len() == 7 && "%"@.len() == 1 && "VA"@.len() == 2);
    }
    assert(normalized_unit("ampere"@) == "A"@) by {
        reveal_strlit("watt");
        reveal_strlit("kilowatt");
        reveal_strlit("watthour");
        reveal_strlit("celsius");
        reveal_strlit("percent");
        reveal_strlit("%");
        reveal_strlit("VA");
        reveal_strlit("VAr");
        reveal_strlit("amp");
        reveal_strlit("ampere");
        reveal_strlit("volt");
        reveal_strlit("hertz");
        reveal_strlit("lux");
        reveal_strlit("bar");
        reveal_strlit("deg");
        reveal_strlit("m/s");
        reveal_strlit("rpm");
        reveal_strlit("cfm");
        reveal_strlit("bytes");
        reveal_strlit("packets");
        reveal_strlit("A");
        assert("ampere"@.len() == 6 && "watt"@.len() == 4 && "kilowatt"@.len() == 8 && "watthour"@.len() == 8 && "celsius"@.len() == 7 && "percent"@.len() == 7 && "%"@.len() == 1 && "VA"@.len() == 2 && "VAr"@.len() == 3 && "amp"@.len() == 3);
    }
    assert(normalized_unit("volt"@) == "V"@) by {
        reveal_strlit("watt");
        reveal_strlit("kilowatt");
        reveal_strlit("watthour");
        reveal_strlit("celsius");
        reveal_strlit("percent");
        reveal_strlit("%");
        reveal_strlit("VA");
        reveal_strlit("VAr");
        reveal_strlit("amp");
        reveal_strlit("ampere");
        reveal_strlit("volt");
        reveal_strlit("hertz");
        reveal_strlit("lux");
        reveal_strlit("bar");
        reveal_strlit("deg");
        reveal_strlit("m/s");
        reveal_strlit("rpm");
        reveal_strlit("cfm");
        reveal_strlit("bytes");
        reveal_strlit("packets");
        reveal_strlit("V");
        assert("volt"@[0] != "watt"@[0]);
        assert("volt"@.len() == 4 && "kilowatt"@.len() == 8 && "watthour"@.len() == 8 && "celsius"@.len() == 7 && "percent"@.len() == 7 && "%"@.len() == 1 && "VA"@.len() == 2 && "VAr"@.len() == 3 && "amp"@.len() == 3 && "ampere"@.len() == 6);
    }
    assert(normalized_unit("hertz"@) == "Hz"@) by {
        reveal_strlit("watt");
        reveal_strlit("kilowatt");
        reveal_strlit("watthour");
        reveal_strlit("celsius");
        reveal_strlit("percent");
        reveal_strlit("%");
        reveal_strlit("VA");
        reveal_strlit("VAr");
        reveal_strlit("amp");
        reveal_strlit("ampere");
        reveal_strlit("volt");
        reveal_strlit("hertz");
        reveal_strlit("lux");
        reveal_strlit("bar");
        reveal_strlit("deg");
        reveal_strlit("m/s");
        reveal_strlit("rpm");
        reveal_strlit("cfm");
        reveal_strlit("bytes");
        reveal_strlit("packets");
        reveal_strlit("Hz");
        assert("hertz"@.len() == 5 && "watt"@.len() == 4 && "kilowatt"@.len() == 8 && "watthour"@.len() == 8 && "celsius"@.len() == 7 && "percent"@.len() == 7 && "%"@.len() == 1 && "VA"@.len() == 2 && "VAr"@.len() == 3 && "amp"@.len() == 3 && "ampere"@.len() == 6 && "volt"@.len() == 4);
    }
    assert(normalized_unit("lux"@) == "lx"@) by {
        reveal_strlit("watt");
        reveal_strlit("kilowatt");
        reveal_strlit("watthour");
        reveal_strlit("celsius");
        reveal_strlit("percent");
        reveal_strlit("%");
        reveal_strlit("VA");
        reveal_strlit("VAr");
        reveal_strlit("amp");
        reveal_strlit("ampere");
        reveal_strlit("volt");
        reveal_strlit("hertz");
        reveal_strlit("lux");
        reveal_strlit("bar");
        reveal_strlit("deg");
        reveal_strlit("m/s");
        reveal_strlit("rpm");
        reveal_strlit("cfm");
        reveal_strlit("bytes");
        reveal_strlit("packets");
        reveal_strlit("lx");
        assert("lux"@[0] != "VAr"@[0]);
        assert("lux"@[0] != "amp"@[0]);
        assert("lux"@.len() == 3 && "watt"@.len() == 4 && "kilowatt"@.len() == 8 && "watthour"@.len() == 8 && "celsius"@.len() == 7 && "percent"@.len() == 7 && "%"@.len() == 1 && "VA"@.len() == 2 && "ampere"@.len() == 6 && "volt"@.len() == 4 && "hertz"@.len() == 5);
    }
    assert(normalized_unit("deg"@) == "°"@) by {
        reveal_strlit("watt");
        reveal_strlit("kilowatt");
        reveal_strlit("watthour");
        reveal_strlit("celsius");
        reveal_strlit("percent");
        reveal_strlit("%");
        reveal_strlit("VA");
        reveal_strlit("VAr");
        reveal_strlit("amp");
        reveal_strlit("ampere");
        reveal_strlit("volt");
        reveal_strlit("hertz");
        reveal_strlit("lux");
        reveal_strlit("bar");
        reveal_strlit("deg");
        reveal_strlit("m/s");
        reveal_strlit("rpm");
        reveal_strlit("cfm");
        reveal_strlit("bytes");
        reveal_strlit("packets");
        reveal_strlit("°");
        assert("deg"@[0] != "VAr"@[0]);
        assert("deg"@[0] != "amp"@[0]);
        assert("deg"@[0] != "lux"@[0]);
        assert("deg"@[0] != "bar"@[0]);
        assert("deg"@.len() == 3 && "watt"@.len() == 4 && "kilowatt"@.len() == 8 && "watthour"@.len() == 8 && "celsius"@.len() == 7 && "percent"@.len() == 7 && "%"@.len() == 1 && "VA"@.len() == 2 && "ampere"@.len() == 6 && "volt"@.len() == 4 && "hertz"@.len() == 5);
    }
    assert(normalized_unit("cfm"@) == "[cft_i]/min"@) by {
        reveal_strlit("watt");
        reveal_strlit("kilowatt");
        reveal_strlit("watthour");
        reveal_strlit("celsius");
        reveal_strlit("percent");
        reveal_strlit("%");
        reveal_strlit("VA");
        reveal_strlit("VAr");
        reveal_strlit("amp");
        reveal_strlit("ampere");
        reveal_strlit("volt");
        reveal_strlit("hertz");
        reveal_strlit("lux");
        reveal_strlit("bar");
        reveal_strlit("deg");
        reveal_strlit("m/s");
        reveal_strlit("rpm");
        reveal_strlit("cfm");
        reveal_strlit("bytes");
        reveal_strlit("packets");
        reveal_strlit("[cft_i]/min");
        assert("cfm"@[0] != "VAr"@[0]);
        assert("cfm"@[0] != "amp"@[0]);
        assert("cfm"@[0] != "lux"@[0]);
        assert("cfm"@[0] != "bar"@[0]);
        assert("cfm"@[0] != "deg"@[0]);
        assert("cfm"@[0] != "m/s"@[0]);
        assert("cfm"@[0] != "rpm"@[0]);
        assert("cfm"@.len() == 3 && "watt"@.len() == 4 && "kilowatt"@.len() == 8 && "watthour"@.len() == 8 && "celsius"@.len() == 7 && "percent"@.len() == 7 && "%"@.len() == 1 && "VA"@.len() == 2 && "ampere"@.len() == 6 && "volt"@.len() == 4 && "hertz"@.len() == 5);
    }
    assert(normalized_unit("bytes"@) == "By"@) by {
        reveal_strlit("watt");
        reveal_strlit("kilowatt");
        reveal_strlit("watthour");
        reveal_strlit("celsius");
        reveal_strlit("percent");
        reveal_strlit("%");
        reveal_strlit("VA");
        reveal_strlit("VAr");
        reveal_strlit("amp");
        reveal_strlit("ampere");
        reveal_strlit("volt");
        reveal_strlit("hertz");
        reveal_strlit("lux");
        reveal_strlit("bar");
        reveal_strlit("deg");
        reveal_strlit("m/s");
        reveal_strlit("rpm");
        reveal_strlit("cfm");
        reveal_strlit("bytes");
        reveal_strlit("packets");
        reveal_strlit("By");
        assert("bytes"@[0] != "hertz"@[0]);
        assert("bytes"@.len() == 5 && "watt"@.len() == 4 && "kilowatt"@.len() == 8 && "watthour"@.len() == 8 && "celsius"@.len() == 7 && "percent"@.len() == 7 && "%"@.len() == 1 && "VA"@.len() == 2 && "VAr"@.len() == 3 && "amp"@.len() == 3 && "ampere"@.len() == 6 && "volt"@.len() == 4 && "lux"@.len() == 3 && "bar"@.len() == 3 && "deg"@.len() == 3 && "m/s"@.len() == 3 && "rpm"@.len() == 3 && "cfm"@.len() == 3);
    }
    assert(normalized_unit("packets"@) == "tot."@) by {
        reveal_strlit("watt");
        reveal_strlit("kilowatt");
        reveal_strlit("watthour");
        reveal_strlit("celsius");
        reveal_strlit("percent");
        reveal_strlit("%");
        reveal_strlit("VA");
        reveal_strlit("VAr");
        reveal_strlit("amp");
        reveal_strlit("ampere");
        reveal_strlit("volt");
        reveal_strlit("hertz");
        reveal_strlit("lux");
        reveal_strlit("bar");
        reveal_strlit("deg");
        reveal_strlit("m/s");
        reveal_strlit("rpm");
        reveal_strlit("cfm");
        reveal_strlit("bytes");
        reveal_strlit("packets");
        reveal_strlit("tot.");
        assert("packets"@[0] != "celsius"@[0]);
        assert("packets"@[1] != "percent"@[1]);
        assert("packets"@.len() == 7 && "watt"@.len() == 4 && "kilowatt"@.len() == 8 && "watthour"@.len() == 8 && "%"@.len() == 1 && "VA"@.len() == 2 && "VAr"@.len() == 3 && "amp"@.len() == 3 && "ampere"@.len() == 6 && "volt"@.len() == 4 && "hertz"@.len() == 5 && "lux"@.len() == 3 && "bar"@.len() == 3 && "deg"@.len() == 3 && "m/s"@.len() == 3 && "rpm"@.len() == 3 && "cfm"@.len() == 3 && "bytes"@.len() == 5);
    }
    assert forall|i: int| 0 <= i < t.len() implies normalized_unit((#[trigger] t[i]).0) == t[i].1 by {
    }
    assert forall|u: Seq<char>| normalized_unit(u) != u implies exists|i: int|
        0 <= i < t.len() && (#[trigger] t[i]).0 == u by {
        if u == "watt"@ { assert(t[0].0 == u); }
        else if u == "kilowatt"@ { assert(t[1].0 == u); }
        else if u == "watthour"@ { assert(t[2].0 == u); }
        else if u == "celsius"@ { assert(t[3].0 == u); }
        else if u == "percent"@ { assert(t[4].0 == u); }
        else if u == "VA"@ { assert(t[5].0 == u); }
        else if u == "VAr"@ { assert(t[6].0 == u); }
        else if u == "amp"@ { assert(t[7].0 == u); }
        else if u == "ampere"@ { assert(t[8].0 == u); }
        else if u == "volt"@ { assert(t[9].0 == u); }
        else if u == "hertz"@ { assert(t[10].0 == u); }
        else if u == "lux"@ { assert(t[11].0 == u); }
        else if u == "deg"@ { assert(t[12].0 == u); }
        else if u == "cfm"@ { assert(t[13].0 == u); }
        else if u == "bytes"@ { assert(t[14].0 == u); }
        else if u == "packets"@ { assert(t[15].0 == u); }
    }
}

/// Normalization keeps apart the units it renames: two different unit names that it changes
/// get different UCUM codes, except `amp` and `ampere`, the two spellings of the ampere.
pub proof fn lemma_normalized_units_distinct(a: Seq<char>, b: Seq<char>)
    requires
        normalized_unit(a) != a,
        normalized_unit(b) != b,
        normalized_unit(a) == normalized_unit(b),
    ensures
        a == b || ((a == "amp"@ || a == "ampere"@) && (b == "amp"@ || b == "ampere"@)),
{
    lemma_renamed_units();
    let t = renamed_units();
    let i = choose|i: int| 0 <= i < t.len() && (#[trigger] t[i]).0 == a;
    let j = choose|j: int| 0 <= j < t.len() && (#[trigger] t[j]).0 == b;
    reveal_strlit("%");
    reveal_strlit("A");
    reveal_strlit("By");
    reveal_strlit("Cel");
    reveal_strlit("Hz");
    reveal_strlit("V");
    reveal_strlit("V.A");
    reveal_strlit("V.A_r");
    reveal_strlit("W");
    reveal_strlit("W.h");
    reveal_strlit("[cft_i]/min");
    reveal_strlit("kW");
    reveal_strlit("lx");
    reveal_strlit("tot.");
    reveal_strlit("°");
    reveal_strlit("amp");
    reveal_strlit("ampere");
    assert("%"@[0] != "A"@[0]);
    assert("%"@[0] != "V"@[0]);
    assert("%"@[0] != "W"@[0]);
    assert("%"@[0] != "°"@[0]);
    assert("A"@[0] != "V"@[0]);
    assert("A"@[0] != "W"@[0]);
    assert("A"@[0] != "°"@[0]);
    assert("By"@[0] != "Hz"@[0]);
    assert("By"@[0] != "kW"@[0]);
    assert("By"@[0] != "lx"@[0]);
    assert("Cel"@[0] != "V.A"@[0]);
    assert("Cel"@[0] != "W.h"@[0]);
    assert("Hz"@[0] != "kW"@[0]);
    assert("Hz"@[0] != "lx"@[0]);
    assert("V"@[0] != "W"@[0]);
    assert("V"@[0] != "°"@[0]);
    assert("V.A"@[0] != "W.h"@[0]);
    assert("W"@[0] != "°"@[0]);
    assert("kW"@[0] != "lx"@[0]);
    assert(t[i].1 == t[j].1);
    if i != j {
        assert(t[i].1.len() == t[j].1.len());
        assert(t[i].1[0] == t[j].1[0]);
    }
}

fn normalized_chars(u: &[char]) -> (r: Vec<char>)
    ensures
        r@ == normalized_unit(u@),
{
    if is_word(u, "watt") {
        chars_of("W")
    } else if is_word(u, "kilowatt") {
        chars_of("kW")
    } else if is_word(u, "watthour") {
        chars_of("W.h")
    } else if is_word(u, "celsius") {
        chars_of("Cel")
    } else if is_word(u, "percent") || is_word(u, "%") {
        chars_of("%")
    } else if is_word(u, "VA") {
        chars_of("V.A")
    } else if is_word(u, "VAr") {
        chars_of("V.A_r")
    } else if is_word(u, "amp") || is_word(u, "ampere") {
        chars_of("A")
    } else if is_word(u, "volt") {
        chars_of("V")
    } else if is_word(u, "hertz") {
        chars_of("Hz")
    } else if is_word(u, "lux") {
        chars_of("lx")
    } else if is_word(u, "bar") {
        chars_of("bar")
    } else if is_word(u, "deg") {
        chars_of("°")
    } else if is_word(u, "m/s") {
        chars_of("m/s")
    } else if is_word(u, "rpm") {
        chars_of("rpm")
    } else if is_word(u, "cfm") {
        chars_of("[cft_i]/min")
    } else if is_word(u, "bytes") {
        chars_of("By")
    } else if is_word(u, "packets") {
        chars_of("tot.")
    } else {
        crate::text::slice_to_vec_range(u, 0, u.len())
    }
}

/// Converts a unit name used by Kwollect to its UCUM form, such as `watt` to `W`; a name
/// that is already in UCUM form, or unknown, is returned as it is.
pub fn normalize_unit(unit_str: &str) -> (r: String)
    ensures
        r@ == normalized_unit(unit_str@),
{
    let u = chars_of(unit_str);
    let n = normalized_chars(u.as_slice());
    string_of(n.as_slice())
}

/// The unit segment of a metric name: the last segment between `_`, or, when the name ends
/// with `total`, the one before it, or the one before `discard_total` or `error_total` when
/// there is one.
pub open spec fn unit_segment(name: Seq<char>) -> Seq<char> {
    let parts = split_all(name, '_');
    let n = parts.len();
    if n >= 2 && parts[n - 1] == "total"@ {
        if n >= 3 && (parts[n - 2] == "discard"@ || parts[n - 2] == "error"@) {
            parts[n - 3]
        } else {
            parts[n - 2]
        }
    } else {
        parts[n - 1]
    }
}

/// The UCUM unit of a metric, read from its name (`wattmetre_power_watt` gives `W`).
pub fn extract_unit_from_metric_name(metric_name: &str) -> (r: String)
    ensures
        r@ == normalized_unit(unit_segment(metric_name@)),
{
    let name = chars_of(metric_name);
    let parts = split_all_chars(name.as_slice(), '_');
    let ghost pv = parts@.map_values(|w: Vec<char>| w@);
    let n = parts.len();
    assert(pv[n - 1] == parts@[n - 1]@);
    let unit = if n >= 2 && is_word(parts[n - 1].as_slice(), "total") {
        assert(pv[n - 2] == parts@[n - 2]@);
        if n >= 3 && (is_word(parts[n - 2].as_slice(), "discard") || is_word(parts[n - 2].as_slice(), "error")) {
            assert(pv[n - 3] == parts@[n - 3]@);
            &parts[n - 3]
        } else {
            &parts[n - 2]
        }
    } else {
        &parts[n - 1]
    };
    let r = normalized_chars(unit.as_slice());
    string_of(r.as_slice())
}

/// The decimal form of a signed integer.
pub open spec fn signed_dec(n: int) -> Seq<char> {
    if n < 0 {
        seq!['-'] + dec_of((-n) as nat)
    } else {
        dec_of(n as nat)
    }
}

fn push_signed(out: &mut Vec<char>, n: i64)
    ensures
        final(out)@ == old(out)@ + signed_dec(n as int),
{
    if n < 0 {
        out.push('-');
        let m: u64 = if n == i64::MIN {
            9223372036854775808u64
        } else {
            (-n) as u64
        };
        let d = dec_digits(m);
        push_all(out, d.as_slice());
        assert(old(out)@.push('-') + d@ =~= old(out)@ + signed_dec(n as int));
    } else {
        let d = dec_digits(n as u64);
        push_all(out, d.as_slice());
    }
}

/// The URL that asks the Grid'5000 API for the metrics of the configuration between the Unix
/// times `start` and `end` (in seconds).
pub open spec fn kwollect_url(config: Config, start: i64, end: i64) -> Seq<char> {
    "https://api.grid5000.fr/stable/sites/"@ + config.site@ + "/metrics?nodes="@ + config.hostname@
        + "&metrics="@ + joined(config.metrics@.map_values(|m: String| m@), ","@) + "&start_time="@
        + signed_dec(start as int) + "&end_time="@ + signed_dec(end as int)
}

/// Builds the URL that asks the Grid'5000 API for the configured metrics of the configured
/// node between the Unix times `start` and `end`, in seconds.
pub fn build_kwollect_url(config: &Config, start: i64, end: i64) -> (r: String)
    ensures
        r@ == kwollect_url(*config, start, end),
{
    let mut out: Vec<char> = Vec::new();
    push_str(&mut out, "https://api.grid5000.fr/stable/sites/");
    push_str(&mut out, config.site.as_str());
    push_str(&mut out, "/metrics?nodes=");
    push_str(&mut out, config.hostname.as_str());
    push_str(&mut out, "&metrics=");
    let mut names: Vec<&str> = Vec::new();
    let mut i: usize = 0;
    while i < config.metrics.len()
        invariant
            0 <= i <= config.metrics@.len(),
            names@.len() == i,
            views_of(names@) == config.metrics@.take(i as int).map_values(|m: String| m@),
        decreases config.metrics.len() - i,
    {
        let ghost before = names@;
        let m: &str = config.metrics[i].as_str();
        assert(m@ == config.metrics@[i as int]@);
        names.push(m);
        assert(names@ == before.push(m));
        assert(config.metrics@.take(i + 1) =~= config.metrics@.take(i as int).push(config.metrics@[i as int]));
        let ghost goal = config.metrics@.take(i + 1).map_values(|m: String| m@);
        assert(before.len() == i);
        assert(names@.len() == i + 1);
        assert(views_of(names@)[i as int] == m@);
        assert(goal[i as int] == config.metrics@[i as int]@);
        assert forall|j: int| 0 <= j < i + 1 implies views_of(names@)[j] == goal[j] by {
            if j < i {
                assert(views_of(before)[j] == config.metrics@.take(i as int).map_values(
                    |m: String| m@,
                )[j]);
            }
        }
        assert(views_of(names@) =~= goal);
        i = i + 1;
    }
    assert(config.metrics@.take(config.metrics@.len() as int) =~= config.metrics@);
    let list = crate::text::join(names.as_slice(), ",");
    push_str(&mut out, list.as_str());
    push_str(&mut out, "&start_time=");
    push_signed(&mut out, start);
    push_str(&mut out, "&end_time=");
    push_signed(&mut out, end);
    assert(out@ =~= kwollect_url(*config, start, end));
    string_of(out.as_slice())
}


/// The offset from UTC in which Kwollect expects its times, in seconds east of UTC: the
/// configured number of hours, or UTC when none is configured.
pub fn utc_offset_seconds(utc_offset: Option<i32>) -> (r: i32)
    requires
        utc_offset matches Some(h) ==> -24 < h < 24,
    ensures
        r == match utc_offset {
            Some(h) => h * 3600,
            None => 0,
        },
        -86400 < r < 86400,
{
    match utc_offset {
        Some(hours) => hours * 3600,
        None => 0,
    }
}

} // verus!
