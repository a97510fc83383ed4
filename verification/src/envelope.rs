//! The JSON-RPC 1.0 request envelope:
//! `{"jsonrpc":"1.0","id":"whatevs","method":<m>,"params":[<p>,...]}`.
//! The node ignores the request identifier, so a constant placeholder is
//! used. Parameters are pre-serialized JSON fragments, inserted verbatim.

use vstd::prelude::*;
use vstd::string::StringExecFns;

use crate::jsonstr::json_string_lit;
use crate::jsonstr::json_string;

verus! {

/// The comma-separated list after the first parameter.
pub open spec fn join_rest(ps: Seq<Seq<char>>) -> Seq<char>
    decreases ps.len(),
{
    if ps.len() == 0 {
        Seq::empty()
    } else {
        seq![','] + ps.first() + join_rest(ps.drop_first())
    }
}

/// The comma-separated parameter list.
pub open spec fn join_params(ps: Seq<Seq<char>>) -> Seq<char> {
    if ps.len() == 0 {
        Seq::empty()
    } else {
        ps.first() + join_rest(ps.drop_first())
    }
}

/// The whole request body for one call.
pub open spec fn envelope_chars(method: Seq<char>, params: Seq<Seq<char>>) -> Seq<char> {
    "{\"jsonrpc\":\"1.0\",\"id\":\"whatevs\",\"method\":"@ + json_string_lit(method)
        + ",\"params\":["@ + join_params(params) + "]}"@
}

/// Builds the JSON-RPC 1.0 request body: protocol tag `"1.0"`, the constant
/// placeholder identifier, the method name as a JSON string, and the
/// parameter fragments verbatim, in order.
pub fn request_body(method: &str, params: &Vec<String>) -> (r: String)
    ensures
        r@ == envelope_chars(method@, params.deep_view()),
{
    let ghost dv = params.deep_view();
    let mut r = "{\"jsonrpc\":\"1.0\",\"id\":\"whatevs\",\"method\":".to_owned();
    let m = json_string(method);
    r.append(m.as_str());
    r.append(",\"params\":[");
    if params.len() > 0 {
        r.append(params[0].as_str());
        proof {
            assert(dv[0] == params@[0].deep_view());
            assert(r@ =~= "{\"jsonrpc\":\"1.0\",\"id\":\"whatevs\",\"method\":"@
                + json_string_lit(method@) + ",\"params\":["@ + dv[0] + partial_rest(dv, 1));
        }
        let n = params.len();
        for i in 1..n
            invariant
                n == params@.len(),
                dv == params.deep_view(),
                r@ == "{\"jsonrpc\":\"1.0\",\"id\":\"whatevs\",\"method\":"@ + json_string_lit(
                    method@,
                ) + ",\"params\":["@ + dv[0] + partial_rest(dv, i as int),
        {
            r.append(",");
            r.append(params[i].as_str());
            proof {
                reveal_strlit(",");
                assert(","@ =~= seq![',']);
                assert(dv[i as int] == params@[i as int].deep_view());
                assert(r@ =~= "{\"jsonrpc\":\"1.0\",\"id\":\"whatevs\",\"method\":"@
                    + json_string_lit(method@) + ",\"params\":["@ + dv[0] + partial_rest(
                    dv,
                    i + 1,
                ));
            }
        }
        proof {
            lemma_partial_rest_all(dv);
        }
    } else {
        proof {
            assert(dv.len() == 0);
            assert(join_params(dv) =~= Seq::<char>::empty());
        }
    }
    r.append("]}");
    proof {
        assert(r@ =~= envelope_chars(method@, dv));
    }
    r
}

/// The joined text of the parameters before index `i`, after the first.
spec fn partial_rest(ps: Seq<Seq<char>>, i: int) -> Seq<char>
    decreases i,
{
    if i <= 1 {
        Seq::empty()
    } else {
        partial_rest(ps, i - 1) + seq![','] + ps[i - 1]
    }
}

/// Joining every parameter after the first equals the tail join.
proof fn lemma_partial_rest_from(ps: Seq<Seq<char>>, i: int)
    requires
        1 <= i <= ps.len(),
    ensures
        partial_rest(ps, ps.len() as int) == partial_rest(ps, i) + join_rest(ps.skip(i)),
    decreases ps.len() - i,
{
    if i == ps.len() {
        assert(ps.skip(i) =~= Seq::<Seq<char>>::empty());
        assert(partial_rest(ps, ps.len() as int) =~= partial_rest(ps, i) + join_rest(ps.skip(i)));
    } else {
        lemma_partial_rest_from(ps, i + 1);
        let rest = ps.skip(i);
        assert(rest.first() == ps[i]);
        assert(rest.drop_first() =~= ps.skip(i + 1));
        assert(join_rest(rest) == seq![','] + ps[i] + join_rest(ps.skip(i + 1)));
        assert(partial_rest(ps, i) + join_rest(ps.skip(i)) =~= partial_rest(ps, i + 1) + join_rest(
            ps.skip(i + 1),
        ));
    }
}

proof fn lemma_partial_rest_all(ps: Seq<Seq<char>>)
    requires
        1 <= ps.len(),
    ensures
        ps[0] + partial_rest(ps, ps.len() as int) == join_params(ps),
{
    lemma_partial_rest_from(ps, 1);
    assert(ps.drop_first() =~= ps.skip(1));
    assert(ps[0] + partial_rest(ps, ps.len() as int) =~= join_params(ps));
}

} // verus!
