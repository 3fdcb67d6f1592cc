//! The fixed-arity invocation entry points, 0 through 10 integer arguments,
//! that all funnel into the variable-arity bridge. The family exists to suit
//! a host calling convention without variadic parameters; each entry point
//! collapses failures to "no value" exactly as the bridge does.

use vstd::prelude::*;

use crate::registry::{entry_post, SharedRegistry};

verus! {

impl SharedRegistry {
    /// Fixed-arity entry point: invokes with no integer arguments.
    pub fn invoke_function_0(
        &self,
        instance_id: String,
        function_name: String,
    ) -> (r: Option<i64>)
        ensures
            entry_post(instance_id@, function_name@, Seq::<i64>::empty(), r),
    {
        let arguments: Vec<i64> = Vec::new();
        let ghost a = arguments@;
        let r = self.invoke_function(instance_id, function_name, &arguments);
        proof {
            assert(a =~= Seq::<i64>::empty());
        }
        r
    }

    /// Fixed-arity entry point: invokes with exactly one integer argument.
    pub fn invoke_function_1(
        &self,
        instance_id: String,
        function_name: String,
        argument0: i64,
    ) -> (r: Option<i64>)
        ensures
            entry_post(instance_id@, function_name@, seq![argument0], r),
    {
        let mut arguments: Vec<i64> = Vec::new();
        arguments.push(argument0);
        let ghost a = arguments@;
        let r = self.invoke_function(instance_id, function_name, &arguments);
        proof {
            assert(a =~= seq![argument0]);
        }
        r
    }

    /// Fixed-arity entry point: invokes with exactly 2 integer arguments.
    pub fn invoke_function_2(
        &self,
        instance_id: String,
        function_name: String,
        argument0: i64,
        argument1: i64,
    ) -> (r: Option<i64>)
        ensures
            entry_post(instance_id@, function_name@, seq![argument0, argument1], r),
    {
        let mut arguments: Vec<i64> = Vec::new();
        arguments.push(argument0);
        arguments.push(argument1);
        let ghost a = arguments@;
        let r = self.invoke_function(instance_id, function_name, &arguments);
        proof {
            assert(a =~= seq![argument0, argument1]);
        }
        r
    }

    /// Fixed-arity entry point: invokes with exactly 3 integer arguments.
    pub fn invoke_function_3(
        &self,
        instance_id: String,
        function_name: String,
        argument0: i64,
        argument1: i64,
        argument2: i64,
    ) -> (r: Option<i64>)
        ensures
            entry_post(instance_id@, function_name@, seq![argument0, argument1, argument2], r),
    {
        let mut arguments: Vec<i64> = Vec::new();
        arguments.push(argument0);
        arguments.push(argument1);
        arguments.push(argument2);
        let ghost a = arguments@;
        let r = self.invoke_function(instance_id, function_name, &arguments);
        proof {
            assert(a =~= seq![argument0, argument1, argument2]);
        }
        r
    }

    /// Fixed-arity entry point: invokes with exactly 4 integer arguments.
    pub fn invoke_function_4(
        &self,
        instance_id: String,
        function_name: String,
        argument0: i64,
        argument1: i64,
        argument2: i64,
        argument3: i64,
    ) -> (r: Option<i64>)
        ensures
            entry_post(instance_id@, function_name@, seq![argument0, argument1, argument2, argument3], r),
    {
        let mut arguments: Vec<i64> = Vec::new();
        arguments.push(argument0);
        arguments.push(argument1);
        arguments.push(argument2);
        arguments.push(argument3);
        let ghost a = arguments@;
        let r = self.invoke_function(instance_id, function_name, &arguments);
        proof {
            assert(a =~= seq![argument0, argument1, argument2, argument3]);
        }
        r
    }

    /// Fixed-arity entry point: invokes with exactly 5 integer arguments.
    pub fn invoke_function_5(
        &self,
        instance_id: String,
        function_name: String,
        argument0: i64,
        argument1: i64,
        argument2: i64,
        argument3: i64,
        argument4: i64,
    ) -> (r: Option<i64>)
        ensures
            entry_post(instance_id@, function_name@, seq![argument0, argument1, argument2, argument3, argument4], r),
    {
        let mut arguments: Vec<i64> = Vec::new();
        arguments.push(argument0);
        arguments.push(argument1);
        arguments.push(argument2);
        arguments.push(argument3);
        arguments.push(argument4);
        let ghost a = arguments@;
        let r = self.invoke_function(instance_id, function_name, &arguments);
        proof {
            assert(a =~= seq![argument0, argument1, argument2, argument3, argument4]);
        }
        r
    }

    /// Fixed-arity entry point: invokes with exactly 6 integer arguments.
    pub fn invoke_function_6(
        &self,
        instance_id: String,
        function_name: String,
        argument0: i64,
        argument1: i64,
        argument2: i64,
        argument3: i64,
        argument4: i64,
        argument5: i64,
    ) -> (r: Option<i64>)
        ensures
            entry_post(instance_id@, function_name@, seq![argument0, argument1, argument2, argument3, argument4, argument5], r),
    {
        let mut arguments: Vec<i64> = Vec::new();
        arguments.push(argument0);
        arguments.push(argument1);
        arguments.push(argument2);
        arguments.push(argument3);
        arguments.push(argument4);
        arguments.push(argument5);
        let ghost a = arguments@;
        let r = self.invoke_function(instance_id, function_name, &arguments);
        proof {
            assert(a =~= seq![argument0, argument1, argument2, argument3, argument4, argument5]);
        }
        r
    }

    /// Fixed-arity entry point: invokes with exactly 7 integer arguments.
    pub fn invoke_function_7(
        &self,
        instance_id: String,
        function_name: String,
        argument0: i64,
        argument1: i64,
        argument2: i64,
        argument3: i64,
        argument4: i64,
        argument5: i64,
        argument6: i64,
    ) -> (r: Option<i64>)
        ensures
            entry_post(instance_id@, function_name@, seq![argument0, argument1, argument2, argument3, argument4, argument5, argument6], r),
    {
        let mut arguments: Vec<i64> = Vec::new();
        arguments.push(argument0);
        arguments.push(argument1);
        arguments.push(argument2);
        arguments.push(argument3);
        arguments.push(argument4);
        arguments.push(argument5);
        arguments.push(argument6);
        let ghost a = arguments@;
        let r = self.invoke_function(instance_id, function_name, &arguments);
        proof {
            assert(a =~= seq![argument0, argument1, argument2, argument3, argument4, argument5, argument6]);
        }
        r
    }

    /// Fixed-arity entry point: invokes with exactly 8 integer arguments.
    pub fn invoke_function_8(
        &self,
        instance_id: String,
        function_name: String,
        argument0: i64,
        argument1: i64,
        argument2: i64,
        argument3: i64,
        argument4: i64,
        argument5: i64,
        argument6: i64,
        argument7: i64,
    ) -> (r: Option<i64>)
        ensures
            entry_post(instance_id@, function_name@, seq![argument0, argument1, argument2, argument3, argument4, argument5, argument6, argument7], r),
    {
        let mut arguments: Vec<i64> = Vec::new();
        arguments.push(argument0);
        arguments.push(argument1);
        arguments.push(argument2);
        arguments.push(argument3);
        arguments.push(argument4);
        arguments.push(argument5);
        arguments.push(argument6);
        arguments.push(argument7);
        let ghost a = arguments@;
        let r = self.invoke_function(instance_id, function_name, &arguments);
        proof {
            assert(a =~= seq![argument0, argument1, argument2, argument3, argument4, argument5, argument6, argument7]);
        }
        r
    }

    /// Fixed-arity entry point: invokes with exactly 9 integer arguments.
    pub fn invoke_function_9(
        &self,
        instance_id: String,
        function_name: String,
        argument0: i64,
        argument1: i64,
        argument2: i64,
        argument3: i64,
        argument4: i64,
        argument5: i64,
        argument6: i64,
        argument7: i64,
        argument8: i64,
    ) -> (r: Option<i64>)
        ensures
            entry_post(instance_id@, function_name@, seq![argument0, argument1, argument2, argument3, argument4, argument5, argument6, argument7, argument8], r),
    {
        let mut arguments: Vec<i64> = Vec::new();
        arguments.push(argument0);
        arguments.push(argument1);
        arguments.push(argument2);
        arguments.push(argument3);
        arguments.push(argument4);
        arguments.push(argument5);
        arguments.push(argument6);
        arguments.push(argument7);
        arguments.push(argument8);
        let ghost a = arguments@;
        let r = self.invoke_function(instance_id, function_name, &arguments);
        proof {
            assert(a =~= seq![argument0, argument1, argument2, argument3, argument4, argument5, argument6, argument7, argument8]);
        }
        r
    }

    /// Fixed-arity entry point: invokes with exactly 10 integer arguments.
    pub fn invoke_function_10(
        &self,
        instance_id: String,
        function_name: String,
        argument0: i64,
        argument1: i64,
        argument2: i64,
        argument3: i64,
        argument4: i64,
        argument5: i64,
        argument6: i64,
        argument7: i64,
        argument8: i64,
        argument9: i64,
    ) -> (r: Option<i64>)
        ensures
            entry_post(instance_id@, function_name@, seq![argument0, argument1, argument2, argument3, argument4, argument5, argument6, argument7, argument8, argument9], r),
    {
        let mut arguments: Vec<i64> = Vec::new();
        arguments.push(argument0);
        arguments.push(argument1);
        arguments.push(argument2);
        arguments.push(argument3);
        arguments.push(argument4);
        arguments.push(argument5);
        arguments.push(argument6);
        arguments.push(argument7);
        arguments.push(argument8);
        arguments.push(argument9);
        let ghost a = arguments@;
        let r = self.invoke_function(instance_id, function_name, &arguments);
        proof {
            assert(a =~= seq![argument0, argument1, argument2, argument3, argument4, argument5, argument6, argument7, argument8, argument9]);
        }
        r
    }

}

} // verus!
