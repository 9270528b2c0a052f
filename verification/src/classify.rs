//! The member classifier.
//!
//! An interface's member declarations are bucketed into the three supported
//! kinds — method, associated type, associated constant.  A member of any
//! other kind is a fatal, immediate failure: the generator refuses to skip
//! members silently, because an ignored member would produce a
//! silently-incomplete implementation.

use vstd::prelude::*;

use crate::model::{
    member_decls_model, members_model, GenError, GenErrorModel, Member, MemberDecl,
    MemberDeclModel, MemberModel,
};

verus! {

/// Classification of an interface's member declarations: the members in
/// declaration order when every declaration is of a supported kind, and
/// `UnsupportedMember` with the description of the first unsupported
/// declaration otherwise.
pub open spec fn classify_model(l: Seq<MemberDeclModel>) -> Result<Seq<MemberModel>, GenErrorModel>
    decreases l,
{
    if l.len() == 0 {
        Result::Ok(Seq::empty())
    } else {
        match l[0] {
            MemberDeclModel::Supported(m) => match classify_model(l.drop_first()) {
                Result::Ok(rest) => Result::Ok(seq![m] + rest),
                Result::Err(e) => Result::Err(e),
            },
            MemberDeclModel::Unsupported(d) => Result::Err(GenErrorModel::UnsupportedMember(d)),
        }
    }
}

/// Classification succeeds exactly when every declaration is supported, and
/// then maps the declarations elementwise.
pub proof fn lemma_classify_model(l: Seq<MemberDeclModel>)
    ensures
        (classify_model(l) is Ok) == (forall|j: int|
            0 <= j < l.len() ==> #[trigger] l[j] is Supported),
        classify_model(l) matches Result::Ok(ms) ==> {
            &&& ms.len() == l.len()
            &&& forall|j: int|
                0 <= j < l.len() ==> l[j] == MemberDeclModel::Supported(#[trigger] ms[j])
        },
    decreases l,
{
    if l.len() > 0 {
        lemma_classify_model(l.drop_first());
        if forall|j: int| 0 <= j < l.len() ==> #[trigger] l[j] is Supported {
            assert forall|k: int| 0 <= k < l.drop_first().len() implies #[trigger] l.drop_first()[k]
                is Supported by {
                assert(l.drop_first()[k] == l[k + 1]);
                assert(l[k + 1] is Supported);
            }
            assert(l[0] is Supported);
            assert(classify_model(l) is Ok);
        } else {
            let j = choose|j: int| 0 <= j < l.len() && !(#[trigger] l[j] is Supported);
            if l[0] is Supported {
                assert(l.drop_first()[j - 1] == l[j]);
                assert(!(classify_model(l.drop_first()) is Ok));
            }
            assert(!(classify_model(l) is Ok));
        }
        match classify_model(l) {
            Result::Ok(ms) => {
                let rest = classify_model(l.drop_first())->Ok_0;
                assert forall|j: int| 0 <= j < l.len() implies l[j] == MemberDeclModel::Supported(
                    #[trigger] ms[j],
                ) by {
                    if j > 0 {
                        assert(ms[j] == rest[j - 1]);
                        assert(l.drop_first()[j - 1] == l[j]);
                    }
                }
            },
            Result::Err(_) => {},
        }
    }
}

/// Classifies the member declarations of an interface, in order.
pub fn classify_members(members: &Vec<MemberDecl>) -> (r: Result<Vec<Member>, GenError>)
    ensures
        match r {
            Result::Ok(v) => classify_model(member_decls_model(members@)) == Result::Ok::<
                Seq<MemberModel>,
                GenErrorModel,
            >(members_model(v@)),
            Result::Err(e) => classify_model(member_decls_model(members@)) == Result::Err::<
                Seq<MemberModel>,
                GenErrorModel,
            >(e@),
        },
{
    let ghost l = member_decls_model(members@);
    let mut out: Vec<Member> = Vec::new();
    proof {
        assert(l.skip(0) =~= l);
        assert(members_model(out@) =~= Seq::<MemberModel>::empty());
    }
    for i in 0..members.len()
        invariant
            out@.len() == i,
            l == member_decls_model(members@),
            l.len() == members@.len(),
            classify_model(l) == (match classify_model(l.skip(i as int)) {
                Result::Ok(rest) => Result::Ok::<Seq<MemberModel>, GenErrorModel>(
                    members_model(out@) + rest,
                ),
                Result::Err(e) => Result::Err::<Seq<MemberModel>, GenErrorModel>(e),
            }),
    {
        proof {
            assert(l[i as int] == members@[i as int].model());
            assert(l.skip(i as int)[0] == l[i as int]);
            assert(l.skip(i as int).drop_first() =~= l.skip(i as int + 1));
        }
        match &members[i] {
            MemberDecl::Supported(m) => {
                let ghost old_out = out@;
                out.push(m.clone());
                proof {
                    assert(members_model(out@) =~= members_model(old_out).push(m.model()));
                    match classify_model(l.skip(i as int + 1)) {
                        Result::Ok(rest) => {
                            assert(members_model(old_out) + (seq![m.model()] + rest)
                                =~= members_model(out@) + rest);
                        },
                        Result::Err(_) => {},
                    }
                }
            },
            MemberDecl::Unsupported(d) => {
                return Result::Err(GenError::UnsupportedMember(d.clone()));
            },
        }
    }
    proof {
        assert(l.skip(members@.len() as int) =~= Seq::<MemberDeclModel>::empty());
        assert(members_model(out@) + Seq::<MemberModel>::empty() =~= members_model(out@));
    }
    Result::Ok(out)
}

} // verus!
